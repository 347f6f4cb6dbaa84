//! What a holder shows of itself in logs: where its target lies, never what
//! the target holds.
use vstd::prelude::*;

verus! {

/// The text shown for a holder whose target lies at `address`.
pub open spec fn rendered(address: Seq<char>) -> Seq<char> {
    "TempKey("@ + address + ")"@
}

/// `String::push_str` appends the given text to the end of the string and
/// leaves what was there before in place.
pub assume_specification[ String::push_str ](s: &mut String, string: &str)
    ensures
        final(s)@ == old(s)@ + string@,
;

/// The address of `region` as `format!` writes a pointer with `{:p}`. The
/// text depends on where the region lies in memory on this run, so nothing
/// is claimed of it.
#[verifier::external_body]
pub(crate) fn address_text<const N: usize>(region: &[u8; N]) -> String {
    format!("{:p}", region)
}

/// Wraps the text of an address in the holder's name.
pub fn render(address: &str) -> (r: String)
    ensures
        r@ == rendered(address@),
{
    let mut out = String::new();
    out.push_str("TempKey(");
    out.push_str(address);
    out.push_str(")");
    assert(out@ =~= rendered(address@));
    out
}

} // verus!
