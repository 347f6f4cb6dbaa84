//! Comparison of fixed-size byte regions.
//!
//! The executable functions visit every byte of both operands, whatever the
//! bytes hold: no branch and no index depends on the data, so the work done
//! depends on the size alone. What is proved here is the result. The time
//! that the compiled code takes is no property of the result, and nothing is
//! proved of it.
use vstd::prelude::*;

verus! {

/// `i` is the first index at which `a` and `b` hold different bytes.
pub open spec fn first_difference(a: Seq<u8>, b: Seq<u8>, i: int) -> bool {
    &&& 0 <= i < a.len()
    &&& i < b.len()
    &&& a[i] != b[i]
    &&& forall|j: int| 0 <= j < i ==> a[j] == b[j]
}

/// `a` comes strictly before `b` in lexicographic order: at the first index
/// where they differ, the byte of `a` is the smaller one.
pub open spec fn precedes(a: Seq<u8>, b: Seq<u8>) -> bool {
    exists|i: int| #[trigger] first_difference(a, b, i) && a[i] < b[i]
}

/// The three-way comparison of two regions of the same size, as a sign:
/// `-1` where `a` comes first, `1` where `b` comes first, `0` otherwise.
pub open spec fn lex_sign(a: Seq<u8>, b: Seq<u8>) -> int {
    if precedes(a, b) {
        -1
    } else if precedes(b, a) {
        1
    } else {
        0
    }
}

/// Folding the difference of one more byte pair into the accumulator leaves
/// it zero exactly when it was zero and the two bytes agree.
proof fn fold_difference(acc: u8, x: u8, y: u8)
    by (bit_vector)
    ensures
        (acc | (x ^ y)) == 0u8 <==> (acc == 0u8 && x == y),
{
}

/// Byte-for-byte equality of two regions of the same size.
///
/// Every byte pair is read and folded into one accumulator; the result is
/// taken from the accumulator once, after the last pair.
#[inline(never)]
pub fn equal<const N: usize>(a: &[u8; N], b: &[u8; N]) -> (r: bool)
    ensures
        r == (a@ == b@),
{
    let mut acc: u8 = 0;
    let mut i: usize = 0;
    while i < N
        invariant
            i <= N,
            acc == 0 <==> (forall|j: int| 0 <= j < i ==> a@[j] == b@[j]),
        decreases N - i,
    {
        proof {
            fold_difference(acc, a@[i as int], b@[i as int]);
        }
        acc = acc | (a[i] ^ b[i]);
        i += 1;
    }
    proof {
        if acc == 0 {
            assert(a@ =~= b@);
        }
    }
    acc == 0
}

/// An all-ones mask where `d` is not zero, an all-zeros mask where it is.
proof fn nonzero_mask(d: i32)
    by (bit_vector)
    requires
        -255 <= d <= 255,
    ensures
        d == 0 ==> ((d | (0i32 - d) as i32) >> 31) == 0i32,
        d != 0 ==> ((d | (0i32 - d) as i32) >> 31) == -1i32,
{
}

/// Selecting with an all-ones mask takes the first value, with an all-zeros
/// mask the second.
proof fn select_by_mask(mask: i32, x: i32, y: i32)
    by (bit_vector)
    ensures
        mask == -1i32 ==> ((x & mask) | (y & !mask)) == x,
        mask == 0i32 ==> ((x & mask) | (y & !mask)) == y,
{
}

/// The top bit of a small difference, spread over the word: `-1` below zero,
/// `0` from zero up.
proof fn sign_bit(d: i32)
    by (bit_vector)
    requires
        -255 <= d <= 255,
    ensures
        d < 0 ==> (d >> 31) == -1i32,
        d >= 0 ==> (d >> 31) == 0i32,
{
}

/// Three-way lexicographic comparison of two regions of the same size:
/// `-1`, `0` or `1` as `a` comes before, is equal to, or comes after `b`.
///
/// The regions are walked from the last byte to the first. At each index the
/// difference of the two bytes replaces the one kept so far unless it is
/// zero, by a mask and not by a branch, so that the difference kept at the
/// end is that of the first index where the regions differ.
#[inline(never)]
pub fn compare<const N: usize>(a: &[u8; N], b: &[u8; N]) -> (r: i32)
    ensures
        r == lex_sign(a@, b@),
{
    let mut kept: i32 = 0;
    let mut i: usize = N;
    let ghost mut first: int = N as int;
    while i > 0
        invariant
            i <= first <= N,
            -255 <= kept <= 255,
            forall|j: int| i <= j < first ==> a@[j] == b@[j],
            first < N ==> a@[first] != b@[first] && kept == a@[first] - b@[first],
            first == N ==> kept == 0,
        decreases i,
    {
        i -= 1;
        let diff: i32 = a[i] as i32 - b[i] as i32;
        let mask: i32 = (diff | (0 - diff)) >> 31;
        proof {
            nonzero_mask(diff);
            select_by_mask(mask, diff, kept);
            if diff != 0 {
                first = i as int;
            }
        }
        kept = (diff & mask) | (kept & !mask);
    }
    proof {
        sign_bit(kept);
        sign_bit((0 - kept) as i32);
        if first < N {
            assert(first_difference(a@, b@, first));
            assert(first_difference(b@, a@, first));
        }
    }
    (kept >> 31) - ((0 - kept) >> 31)
}

/// Two regions of the same size that agree below `from` and are not equal
/// have a first index where they differ.
proof fn find_difference(a: Seq<u8>, b: Seq<u8>, from: int) -> (i: int)
    requires
        a.len() == b.len(),
        a != b,
        0 <= from <= a.len(),
        forall|j: int| 0 <= j < from ==> a[j] == b[j],
    ensures
        first_difference(a, b, i),
    decreases a.len() - from,
{
    if from == a.len() {
        assert(a =~= b);
        from
    } else if a[from] != b[from] {
        from
    } else {
        find_difference(a, b, from + 1)
    }
}

/// Ordering agrees with equality: two regions of the same size compare as
/// neither before nor after each other exactly when they hold the same
/// bytes.
pub proof fn sign_zero_iff_equal(a: Seq<u8>, b: Seq<u8>)
    requires
        a.len() == b.len(),
    ensures
        lex_sign(a, b) == 0 <==> a == b,
{
    if a != b {
        let i = find_difference(a, b, 0);
        assert(first_difference(b, a, i));
    }
}

/// Swapping the operands flips the sign: if `a` comes before `b` then `b`
/// comes after `a`, and the other way round.
pub proof fn sign_flips_when_swapped(a: Seq<u8>, b: Seq<u8>)
    ensures
        lex_sign(b, a) == -lex_sign(a, b),
{
    if precedes(a, b) && precedes(b, a) {
        let i = choose|i: int| #[trigger] first_difference(a, b, i) && a[i] < b[i];
        let j = choose|j: int| #[trigger] first_difference(b, a, j) && b[j] < a[j];
        assert(i == j);
    }
}

/// Coming before is transitive: if `a` comes before `b` and `b` before `c`,
/// then `a` comes before `c`.
pub proof fn precedes_is_transitive(a: Seq<u8>, b: Seq<u8>, c: Seq<u8>)
    requires
        precedes(a, b),
        precedes(b, c),
    ensures
        precedes(a, c),
{
    let i = choose|i: int| #[trigger] first_difference(a, b, i) && a[i] < b[i];
    let j = choose|j: int| #[trigger] first_difference(b, c, j) && b[j] < c[j];
    let k = if i <= j { i } else { j };
    assert(first_difference(a, c, k));
}

} // verus!
