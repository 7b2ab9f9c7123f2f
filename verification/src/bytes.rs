//! Small verified helpers on byte slices: copying a range, XOR of two
//! equal-length buffers, and a constant-time equality check.

use vstd::prelude::*;

verus! {

/// Pointwise XOR of two byte sequences; the length is taken from `a`.
pub open spec fn xor_seq(a: Seq<u8>, b: Seq<u8>) -> Seq<u8> {
    Seq::new(a.len(), |i: int| a[i] ^ b[i])
}

/// XOR-ing twice with the same mask restores the original sequence.
pub proof fn lemma_xor_involution(a: Seq<u8>, b: Seq<u8>)
    ensures
        xor_seq(xor_seq(a, b), b) =~= a,
{
    assert forall|i: int| 0 <= i < a.len() implies xor_seq(xor_seq(a, b), b)[i] == a[i] by {
        let x = a[i];
        let y = b[i];
        assert((x ^ y) ^ y == x) by (bit_vector);
    }
}

/// Copies `data[start..end]` into a fresh vector.
pub fn copy_range(data: &[u8], start: usize, end: usize) -> (r: Vec<u8>)
    requires
        start <= end <= data@.len(),
    ensures
        r@ == data@.subrange(start as int, end as int),
{
    let mut r: Vec<u8> = Vec::new();
    let mut i: usize = start;
    while i < end
        invariant
            start <= i <= end <= data@.len(),
            r@ == data@.subrange(start as int, i as int),
        decreases end - i,
    {
        r.push(data[i]);
        i = i + 1;
        proof {
            assert(r@ =~= data@.subrange(start as int, i as int));
        }
    }
    r
}

/// Appends all of `src` to `dst`.
pub fn append_bytes(dst: &mut Vec<u8>, src: &[u8])
    ensures
        final(dst)@ == old(dst)@ + src@,
{
    let mut i: usize = 0;
    while i < src.len()
        invariant
            0 <= i <= src@.len(),
            dst@ == old(dst)@ + src@.take(i as int),
        decreases src@.len() - i,
    {
        dst.push(src[i]);
        i = i + 1;
        proof {
            assert(dst@ =~= old(dst)@ + src@.take(i as int));
        }
    }
    proof {
        assert(old(dst)@ + src@.take(src@.len() as int) =~= old(dst)@ + src@);
    }
}

/// XORs `data` with `mask` elementwise.
pub fn xor_bytes(data: &[u8], mask: &[u8]) -> (r: Vec<u8>)
    requires
        data@.len() == mask@.len(),
    ensures
        r@ == xor_seq(data@, mask@),
{
    let mut r: Vec<u8> = Vec::new();
    let mut i: usize = 0;
    while i < data.len()
        invariant
            0 <= i <= data@.len(),
            data@.len() == mask@.len(),
            r@ == xor_seq(data@, mask@).take(i as int),
        decreases data@.len() - i,
    {
        r.push(data[i] ^ mask[i]);
        i = i + 1;
        proof {
            assert(r@ =~= xor_seq(data@, mask@).take(i as int));
        }
    }
    proof {
        assert(xor_seq(data@, mask@).take(data@.len() as int) =~= xor_seq(data@, mask@));
    }
    r
}

/// Equality of two equal-length byte slices, computed without a
/// data-dependent early exit: the comparison accumulates the XOR of every
/// byte pair and only tests the accumulator at the end.
pub fn ct_eq(a: &[u8], b: &[u8]) -> (r: bool)
    requires
        a@.len() == b@.len(),
    ensures
        r == (a@ == b@),
{
    let mut acc: u8 = 0;
    let mut i: usize = 0;
    while i < a.len()
        invariant
            0 <= i <= a@.len(),
            a@.len() == b@.len(),
            (acc == 0) <==> (forall|j: int| 0 <= j < i ==> a@[j] == b@[j]),
        decreases a@.len() - i,
    {
        let x = a[i];
        let y = b[i];
        let ghost old_acc = acc;
        acc = acc | (x ^ y);
        proof {
            assert((old_acc | (x ^ y)) == 0 <==> old_acc == 0 && x == y) by (bit_vector);
        }
        i = i + 1;
    }
    proof {
        if forall|j: int| 0 <= j < a@.len() ==> a@[j] == b@[j] {
            assert(a@ =~= b@);
        }
    }
    acc == 0
}

} // verus!
