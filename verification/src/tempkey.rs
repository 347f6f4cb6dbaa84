//! The holder: a borrowed fixed-size secret, the requests it makes for its
//! memory to be pinned and unpinned, and its comparisons.
//!
//! The holder never pins memory itself. It says what has to be asked of the
//! system, and when: the lock when it is built, the unlock the first time it
//! is released. Whoever owns the holder carries the requests out; a refusal
//! by the system is not reported back, since it only means less protection.
//!
//! Equality and ordering are those of the bytes in memory, not of whatever
//! the bytes stand for: a multi-byte number orders by its bytes from the
//! lowest address up, whatever the machine's byte order makes of them.
use vstd::prelude::*;
use crate::bytes::{compare, equal, precedes, sign_zero_iff_equal};
use crate::diagnostic::{address_text, render, rendered};
use core::cmp::Ordering;
use vstd::std_specs::cmp::{PartialEqSpec, PartialOrdSpec};

verus! {

/// Where a holder stands in its life. A holder starts out `Locked` and
/// becomes `Released` once; nothing leads back.
#[derive(Clone, Copy, Debug, PartialEq, Eq, Structural)]
pub enum Phase {
    /// Built and not yet released: the memory is meant to be pinned.
    Locked,
    /// Released: the memory is no longer meant to be pinned.
    Released,
}

/// What a holder asks of whoever pins memory for it. The region is always
/// the holder's own target, from its first byte; `len` is the number of
/// bytes.
#[must_use]
#[derive(Clone, Copy, Debug, PartialEq, Eq, Structural)]
pub enum Request {
    /// Keep `len` bytes of the target resident in memory.
    Lock { len: usize },
    /// Let `len` bytes of the target be paged out again.
    Unlock { len: usize },
}

/// A borrowed secret of `N` bytes, held for as long as it is in use.
///
/// The holder does not own the bytes: it keeps the caller's exclusive borrow
/// and gives read and write access through it.
pub struct TempKey<'a, const N: usize> {
    target: &'a mut [u8; N],
    phase: Phase,
}

impl<'a, const N: usize> View for TempKey<'a, N> {
    type V = Seq<u8>;

    /// The bytes that the target holds now.
    open spec fn view(&self) -> Seq<u8> {
        (*self.target())@
    }
}

/// The lexicographic order of two regions of the same size.
pub open spec fn lex_order(a: Seq<u8>, b: Seq<u8>) -> Ordering {
    if precedes(a, b) {
        Ordering::Less
    } else if precedes(b, a) {
        Ordering::Greater
    } else {
        Ordering::Equal
    }
}

/// Compares the held bytes with those of `rhs`, over the whole size.
fn order_against<const N: usize>(held: &[u8; N], rhs: &[u8; N]) -> (r: Ordering)
    ensures
        r == lex_order(held@, rhs@),
{
    let sign = compare(held, rhs);
    if sign < 0 {
        Ordering::Less
    } else if sign == 0 {
        Ordering::Equal
    } else {
        Ordering::Greater
    }
}

impl<'a, const N: usize> TempKey<'a, N> {
    /// The borrow that the holder keeps of the caller's value. What the
    /// borrow holds in the end is what the caller's value holds once the
    /// holder is gone.
    pub closed spec fn target(&self) -> &'a mut [u8; N] {
        self.target
    }

    /// Where the holder stands in its life.
    pub closed spec fn spec_phase(&self) -> Phase {
        self.phase
    }

    /// Wraps the caller's value. The holder starts out `Locked` and comes
    /// with the request to lock all `N` bytes, which is to be carried out
    /// before the holder is used. The bytes are not touched, and whatever
    /// is later written through the holder is written to the caller's value.
    pub fn new(t: &'a mut [u8; N]) -> (r: (TempKey<'a, N>, Request))
        ensures
            r.0@ == old(t)@,
            r.0.phase() == Phase::Locked,
            r.1 == (Request::Lock { len: N }),
            *final(t) == *final(r.0.target()),
    {
        (TempKey { target: t, phase: Phase::Locked }, Request::Lock { len: N })
    }

    /// Where the holder stands in its life.
    #[verifier::when_used_as_spec(spec_phase)]
    pub fn phase(&self) -> (p: Phase)
        ensures
            p == self.phase(),
    {
        self.phase
    }

    /// Ends the holder's claim on the memory. The first call on a holder
    /// hands out the request to unlock all `N` bytes; every later call hands
    /// out nothing, so that no region is unlocked twice. The bytes stay as
    /// they are.
    #[must_use]
    pub fn release(&mut self) -> (r: Option<Request>)
        ensures
            r == match old(self).phase() {
                Phase::Locked => Some(Request::Unlock { len: N }),
                Phase::Released => None,
            },
            final(self).phase() == Phase::Released,
            final(self)@ == old(self)@,
            final(self).target() == old(self).target(),
    {
        match self.phase {
            Phase::Locked => {
                self.phase = Phase::Released;
                Some(Request::Unlock { len: N })
            },
            Phase::Released => None,
        }
    }

    /// How the bytes of two holders stand to each other.
    pub fn cmp(&self, rhs: &TempKey<'_, N>) -> (r: Ordering)
        ensures
            r == lex_order(self@, rhs@),
    {
        self.partial_cmp(rhs).unwrap()
    }

    /// What the holder shows of itself in logs: its name around the address
    /// of its target. The held bytes are not read.
    pub fn diagnostic(&self) -> (r: String)
        ensures
            exists|address: Seq<char>| r@ == #[trigger] rendered(address),
    {
        let address = address_text(&*self.target);
        render(address.as_str())
    }

    /// Once nothing can write through the holder any more, the caller's value
    /// is left holding the bytes that the holder shows.
    pub proof fn settled(self)
        requires
            has_resolved(self),
        ensures
            (*final(self.target()))@ == self@,
    {
    }
}

impl<'a, const N: usize> core::ops::Deref for TempKey<'a, N> {
    type Target = [u8; N];

    /// Read access to the wrapped value.
    fn deref(&self) -> (r: &[u8; N])
        ensures
            r@ == self@,
    {
        &*self.target
    }
}

impl<'a, const N: usize> core::ops::DerefMut for TempKey<'a, N> {
    /// Write access to the wrapped value: what is written through the
    /// result is what the holder shows afterwards, and what the caller's
    /// value holds in the end is decided as before.
    fn deref_mut(&mut self) -> (r: &mut [u8; N])
        ensures
            r@ == old(self)@,
            final(self)@ == final(r)@,
            final(self).phase() == old(self).phase(),
            *final(final(self).target()) == *final(old(self).target()),
    {
        &mut *self.target
    }
}

impl<'a, const N: usize> PartialEq<[u8; N]> for TempKey<'a, N> {
    /// Whether the held bytes are those of `rhs`, byte for byte.
    fn eq(&self, rhs: &[u8; N]) -> (r: bool) {
        equal(&*self.target, rhs)
    }
}

impl<'a, const N: usize> vstd::std_specs::cmp::PartialEqSpecImpl<[u8; N]> for TempKey<'a, N> {
    open spec fn obeys_eq_spec() -> bool {
        true
    }

    open spec fn eq_spec(&self, rhs: &[u8; N]) -> bool {
        self@ == rhs@
    }
}

impl<'a, 'b, const N: usize> PartialEq<TempKey<'b, N>> for TempKey<'a, N> {
    /// Whether two holders hold the same bytes.
    fn eq(&self, rhs: &TempKey<'b, N>) -> (r: bool) {
        equal(&*self.target, &*rhs.target)
    }
}

impl<'a, 'b, const N: usize> vstd::std_specs::cmp::PartialEqSpecImpl<TempKey<'b, N>> for TempKey<'a, N> {
    open spec fn obeys_eq_spec() -> bool {
        true
    }

    open spec fn eq_spec(&self, rhs: &TempKey<'b, N>) -> bool {
        self@ == rhs@
    }
}

impl<'a, const N: usize> Eq for TempKey<'a, N> {

}

impl<'a, const N: usize> PartialOrd<[u8; N]> for TempKey<'a, N> {
    /// How the held bytes stand to those of `rhs`; never `None`.
    fn partial_cmp(&self, rhs: &[u8; N]) -> (r: Option<Ordering>) {
        Some(order_against(&*self.target, rhs))
    }
}

impl<'a, const N: usize> vstd::std_specs::cmp::PartialOrdSpecImpl<[u8; N]> for TempKey<'a, N> {
    open spec fn obeys_partial_cmp_spec() -> bool {
        true
    }

    open spec fn partial_cmp_spec(&self, rhs: &[u8; N]) -> Option<Ordering> {
        Some(lex_order(self@, rhs@))
    }
}

impl<'a, 'b, const N: usize> PartialOrd<TempKey<'b, N>> for TempKey<'a, N> {
    /// How the bytes of two holders stand to each other; never `None`.
    fn partial_cmp(&self, rhs: &TempKey<'b, N>) -> (r: Option<Ordering>) {
        Some(order_against(&*self.target, &*rhs.target))
    }
}

impl<'a, 'b, const N: usize> vstd::std_specs::cmp::PartialOrdSpecImpl<TempKey<'b, N>> for TempKey<'a, N> {
    open spec fn obeys_partial_cmp_spec() -> bool {
        true
    }

    open spec fn partial_cmp_spec(&self, rhs: &TempKey<'b, N>) -> Option<Ordering> {
        Some(lex_order(self@, rhs@))
    }
}

/// A holder compares equal to the bit pattern that it wraps.
pub proof fn wrapped_pattern_is_equal<const N: usize>(key: TempKey<N>, pattern: [u8; N])
    requires
        key@ == pattern@,
    ensures
        key.eq_spec(&pattern),
{
}

/// A holder does not compare equal to a bit pattern other than the one that
/// it wraps.
pub proof fn other_pattern_is_unequal<const N: usize>(
    key: TempKey<N>,
    pattern: [u8; N],
    other: [u8; N],
)
    requires
        key@ == pattern@,
        pattern != other,
    ensures
        !key.eq_spec(&other),
{
    if pattern@ == other@ {
        assert(pattern =~= other);
    }
}

/// Two holders that wrap different bit patterns do not compare equal.
pub proof fn holders_of_different_patterns_are_unequal<const N: usize>(
    first: TempKey<N>,
    second: TempKey<N>,
    pattern: [u8; N],
    other: [u8; N],
)
    requires
        first@ == pattern@,
        second@ == other@,
        pattern != other,
    ensures
        !first.eq_spec(&second),
{
    if pattern@ == other@ {
        assert(pattern =~= other);
    }
}

/// Equality between holders is reflexive and symmetric.
pub proof fn holder_equality_is_reflexive_and_symmetric<const N: usize>(
    first: TempKey<N>,
    second: TempKey<N>,
)
    ensures
        first.eq_spec(&first),
        first.eq_spec(&second) == second.eq_spec(&first),
{
}

/// Ordering agrees with equality against a raw value: the comparison gives
/// `Equal` exactly when `==` gives `true`.
pub proof fn order_agrees_with_equality<const N: usize>(key: TempKey<N>, rhs: [u8; N])
    ensures
        key.partial_cmp_spec(&rhs) == Some(Ordering::Equal) <==> key.eq_spec(&rhs),
{
    sign_zero_iff_equal(key@, rhs@);
}

/// Ordering agrees with equality between two holders: the comparison gives
/// `Equal` exactly when `==` gives `true`.
pub proof fn order_agrees_with_equality_of_holders<const N: usize>(
    first: TempKey<N>,
    second: TempKey<N>,
)
    ensures
        first.partial_cmp_spec(&second) == Some(Ordering::Equal) <==> first.eq_spec(&second),
{
    sign_zero_iff_equal(first@, second@);
}

} // verus!
