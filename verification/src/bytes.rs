//! Byte strings: copying ranges and reading them as big-endian numbers.
use vstd::prelude::*;

verus! {

/// The number that `s` writes in big-endian order.
pub open spec fn be_nat(s: Seq<u8>) -> nat
    decreases s.len(),
{
    if s.len() == 0 {
        0
    } else {
        be_nat(s.drop_last()) * 256 + s.last() as nat
    }
}

/// The bytes of `s` from `start` up to `end`, as a new vector.
pub fn sub_vec(s: &[u8], start: usize, end: usize) -> (out: Vec<u8>)
    requires
        start <= end <= s@.len(),
    ensures
        out@ == s@.subrange(start as int, end as int),
{
    let mut out: Vec<u8> = Vec::new();
    let mut i = start;
    while i < end
        invariant
            start <= i <= end <= s@.len(),
            out@ == s@.subrange(start as int, i as int),
        decreases end - i,
    {
        out.push(s[i]);
        i = i + 1;
    }
    out
}

/// Whether `a` and `b` hold the same bytes.
pub fn bytes_equal(a: &[u8], b: &[u8]) -> (eq: bool)
    ensures
        eq == (a@ == b@),
{
    if a.len() != b.len() {
        return false;
    }
    let mut i: usize = 0;
    while i < a.len()
        invariant
            a@.len() == b@.len(),
            i <= a@.len(),
            forall|j: int| 0 <= j < i ==> a@[j] == b@[j],
        decreases a@.len() - i,
    {
        if a[i] != b[i] {
            return false;
        }
        i = i + 1;
    }
    assert(a@ =~= b@);
    true
}

/// Whether every byte of `s` is zero.
pub fn all_zero(s: &[u8]) -> (b: bool)
    ensures
        b == (be_nat(s@) == 0),
{
    let mut i: usize = 0;
    while i < s.len()
        invariant
            i <= s@.len(),
            be_nat(s@.take(i as int)) == 0,
        decreases s@.len() - i,
    {
        assert(s@.take(i + 1).drop_last() =~= s@.take(i as int));
        if s[i] != 0 {
            proof {
                lemma_be_zero_prefix(s@, i + 1);
            }
            return false;
        }
        i = i + 1;
    }
    assert(s@.take(s@.len() as int) =~= s@);
    true
}

/// A nonzero byte at `k - 1` makes the number of the first `k` bytes, and
/// of the whole, nonzero.
proof fn lemma_be_zero_prefix(s: Seq<u8>, k: int)
    requires
        1 <= k <= s.len(),
        s[k - 1] != 0,
    ensures
        be_nat(s) != 0,
    decreases s.len(),
{
    if k < s.len() {
        lemma_be_zero_prefix(s.drop_last(), k);
    }
}

/// `n` zero bytes write zero.
pub proof fn lemma_be_zeros(s: Seq<u8>)
    requires
        forall|i: int| 0 <= i < s.len() ==> s[i] == 0,
    ensures
        be_nat(s) == 0,
    decreases s.len(),
{
    if s.len() > 0 {
        lemma_be_zeros(s.drop_last());
    }
}

/// The last byte decides whether the number is odd.
pub proof fn lemma_be_parity(s: Seq<u8>)
    requires
        s.len() > 0,
    ensures
        be_nat(s) % 2 == s.last() % 2,
{
    let k = be_nat(s.drop_last());
    assert((k * 256 + s.last()) % 2 == s.last() % 2) by (nonlinear_arith);
}

/// Byte strings of one length that write the same number are the same.
pub proof fn lemma_be_injective(s: Seq<u8>, t: Seq<u8>)
    requires
        s.len() == t.len(),
        be_nat(s) == be_nat(t),
    ensures
        s == t,
    decreases s.len(),
{
    if s.len() == 0 {
        assert(s =~= t);
    } else {
        let a = be_nat(s.drop_last()) as int;
        let b = be_nat(t.drop_last()) as int;
        let x = s.last() as int;
        let y = t.last() as int;
        assert(a == b && x == y) by (nonlinear_arith)
            requires
                a * 256 + x == b * 256 + y,
                0 <= x < 256,
                0 <= y < 256,
                a >= 0,
                b >= 0,
        ;
        lemma_be_injective(s.drop_last(), t.drop_last());
        assert(s =~= s.drop_last().push(s.last()));
        assert(t =~= t.drop_last().push(t.last()));
    }
}

} // verus!
