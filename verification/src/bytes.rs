use vstd::prelude::*;

verus! {

/// Bitwise XOR of two byte sequences of equal length.
pub open spec fn xor_seq(a: Seq<u8>, b: Seq<u8>) -> Seq<u8> {
    Seq::new(a.len(), |i: int| a[i] ^ b[i])
}

/// XOR two byte vectors of equal length, element by element.
pub fn xor_bytes(a: &Vec<u8>, b: &Vec<u8>) -> (r: Vec<u8>)
    requires
        a@.len() == b@.len(),
    ensures
        r@ == xor_seq(a@, b@),
{
    let mut out: Vec<u8> = Vec::new();
    let n = a.len();
    for i in 0..n
        invariant
            n == a@.len(),
            n == b@.len(),
            out@.len() == i,
            forall|j: int| 0 <= j < i ==> out@[j] == (a@[j] ^ b@[j]),
    {
        out.push(a[i] ^ b[i]);
    }
    assert(out@ =~= xor_seq(a@, b@));
    out
}

/// XOR with the same mask twice returns the original bytes.
pub proof fn lemma_xor_involution(a: Seq<u8>, m: Seq<u8>)
    requires
        a.len() == m.len(),
    ensures
        xor_seq(xor_seq(a, m), m) == a,
{
    assert forall|i: int| 0 <= i < a.len() implies xor_seq(xor_seq(a, m), m)[i] == a[i] by {
        let x = a[i];
        let y = m[i];
        assert((x ^ y) ^ y == x) by (bit_vector);
    }
    assert(xor_seq(xor_seq(a, m), m) =~= a);
}

/// Compare two equal-length byte vectors without an early exit, so that the
/// running time does not depend on the position of the first difference.
pub fn ct_eq_bytes(a: &Vec<u8>, b: &Vec<u8>) -> (r: bool)
    requires
        a@.len() == b@.len(),
    ensures
        r == (a@ == b@),
{
    let mut diff: u8 = 0;
    let n = a.len();
    for i in 0..n
        invariant
            n == a@.len(),
            n == b@.len(),
            (diff == 0) <==> (forall|j: int| 0 <= j < i ==> a@[j] == b@[j]),
    {
        let x = a[i];
        let y = b[i];
        let d = x ^ y;
        proof {
            assert((x ^ y == 0) == (x == y)) by (bit_vector);
            let old_diff = diff;
            assert(((old_diff | d) == 0) == (old_diff == 0 && d == 0)) by (bit_vector);
        }
        diff = diff | d;
    }
    proof {
        if diff == 0 {
            assert(a@ =~= b@);
        }
    }
    diff == 0
}

/// Total byte-vector equality: a length test, then a comparison without
/// early exits.
pub fn eq_bytes(a: &Vec<u8>, b: &Vec<u8>) -> (r: bool)
    ensures
        r == (a@ == b@),
{
    if a.len() != b.len() {
        false
    } else {
        ct_eq_bytes(a, b)
    }
}

/// Copy a byte vector element by element.
pub fn copy_bytes(v: &Vec<u8>) -> (r: Vec<u8>)
    ensures
        r@ == v@,
{
    let mut out: Vec<u8> = Vec::new();
    let n = v.len();
    for i in 0..n
        invariant
            n == v@.len(),
            out@.len() == i,
            forall|j: int| 0 <= j < i ==> out@[j] == v@[j],
    {
        out.push(v[i]);
    }
    assert(out@ =~= v@);
    out
}

/// Concatenate two byte vectors.
pub fn concat_bytes(a: &Vec<u8>, b: &Vec<u8>) -> (r: Vec<u8>)
    ensures
        r@ == a@ + b@,
{
    let mut out = copy_bytes(a);
    let n = b.len();
    for i in 0..n
        invariant
            n == b@.len(),
            out@.len() == a@.len() + i,
            forall|j: int| 0 <= j < a@.len() ==> out@[j] == a@[j],
            forall|j: int| 0 <= j < i ==> out@[a@.len() + j] == b@[j],
    {
        out.push(b[i]);
    }
    assert(out@ =~= a@ + b@);
    out
}

/// Relies on `zeroize::Zeroize` for `Vec<u8>`: overwrites the buffer's whole
/// capacity with zeros and then clears it.
#[verifier::external_body]
pub fn wipe_bytes(v: &mut Vec<u8>)
    ensures
        final(v)@.len() == 0,
{
    zeroize::Zeroize::zeroize(v);
}

} // verus!
