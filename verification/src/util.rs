use vstd::prelude::*;

use crate::error::Error;

verus! {

/// The unpadded standard base64 encoding of a byte sequence.
pub uninterp spec fn b64_of(bytes: Seq<u8>) -> Seq<char>;

/// Relies on `base64::encode_config` with `STANDARD_NO_PAD`: the unpadded
/// standard base64 encoding, a function of the input bytes alone. Distinct
/// byte strings have distinct encodings.
#[verifier::external_body]
fn b64_encode(v: &Vec<u8>) -> (r: String)
    ensures
        r@ == b64_of(v@),
        forall|b: Seq<u8>| b64_of(b) == r@ ==> b == v@,
{
    base64::encode_config(v, base64::STANDARD_NO_PAD)
}

/// Relies on `base64::decode_config` with `STANDARD_NO_PAD`: it rejects
/// whitespace, stray symbols and non-zero trailing bits, so it accepts a
/// canonical unpadded encoding (returning exactly the bytes it encodes)
/// and at most trailing-padded variants of one, never anything that some
/// other byte string encodes to.
#[verifier::external_body]
fn b64_decode(s: &str) -> (r: Option<Vec<u8>>)
    ensures
        r is None ==> forall|b: Seq<u8>| s@ != b64_of(b),
        r is Some ==> forall|b: Seq<u8>| s@ == b64_of(b) ==> b == r->Some_0@,
{
    base64::decode_config(s, base64::STANDARD_NO_PAD).ok()
}

/// Whether a character sequence is the unpadded standard base64 encoding of
/// some byte string.
pub open spec fn is_b64(s: Seq<char>) -> bool {
    exists|b: Seq<u8>| s == b64_of(b)
}

/// Encode bytes as an unpadded standard base64 string.
pub fn to_base64(v: &Vec<u8>) -> (r: String)
    ensures
        r@ == b64_of(v@),
        forall|b: Seq<u8>| b64_of(b) == r@ ==> b == v@,
{
    b64_encode(v)
}

/// Decode an unpadded standard base64 string that must hold exactly
/// `want` bytes, as the fixed-width wire fields of this protocol do.
/// Only the canonical unpadded encoding of a `want`-byte string is
/// accepted: anything else fails with `EncodingError`, a canonical
/// encoding of the wrong width with `LengthMismatch`. Canonicality is
/// checked here, in verified code, by re-encoding the decoded bytes and
/// comparing with the input.
pub fn from_base64_exact(s: &str, want: usize) -> (r: Result<Vec<u8>, Error>)
    ensures
        r is Ok ==> r->Ok_0@.len() == want && s@ == b64_of(r->Ok_0@),
        r is Ok <==> (exists|b: Seq<u8>| s@ == b64_of(b) && b.len() == want),
        (r == Err::<Vec<u8>, Error>(Error::EncodingError)) <==> !is_b64(s@),
        r is Err ==> (r->Err_0 == Error::EncodingError || r->Err_0 == Error::LengthMismatch),
{
    match b64_decode(s) {
        Option::None => Err(Error::EncodingError),
        Option::Some(bytes) => {
            let re = b64_encode(&bytes);
            let owned = s.to_owned();
            if re == owned {
                assert(s@ == b64_of(bytes@));
                if bytes.len() == want {
                    Ok(bytes)
                } else {
                    Err(Error::LengthMismatch)
                }
            } else {
                proof {
                    assert forall|b: Seq<u8>| s@ != b64_of(b) by {
                        if s@ == b64_of(b) {
                            assert(b == bytes@);
                        }
                    }
                }
                Err(Error::EncodingError)
            }
        },
    }
}

/// Decode an unpadded standard base64 string holding a 32-byte field.
pub fn from_base64_32(s: &str) -> (r: Result<Vec<u8>, Error>)
    ensures
        r is Ok ==> r->Ok_0@.len() == 32 && s@ == b64_of(r->Ok_0@),
        r is Ok <==> (exists|b: Seq<u8>| s@ == b64_of(b) && b.len() == 32),
        (r == Err::<Vec<u8>, Error>(Error::EncodingError)) <==> !is_b64(s@),
        r is Err ==> (r->Err_0 == Error::EncodingError || r->Err_0 == Error::LengthMismatch),
{
    from_base64_exact(s, 32)
}

/// Copy a slice that must hold exactly 64 bytes, as a signature does.
pub fn try_64_from_slice(slice: &[u8]) -> (r: Result<Vec<u8>, Error>)
    ensures
        slice@.len() == 64 ==> r is Ok && r->Ok_0@ == slice@,
        slice@.len() != 64 ==> r == Err::<Vec<u8>, Error>(Error::LengthMismatch),
{
    if slice.len() == 64 {
        Ok(vstd::slice::slice_to_vec(slice))
    } else {
        Err(Error::LengthMismatch)
    }
}

/// A value with a canonical byte serialization.
pub trait AsBytes {
    /// The byte image of the value.
    spec fn bytes_spec(&self) -> Seq<u8>;

    /// Serialize the value to its byte image.
    fn as_bytes(&self) -> (r: Vec<u8>)
        ensures
            r@ == self.bytes_spec(),
    ;
}

/// A value that can be rebuilt from its canonical byte serialization.
pub trait TryFromBytes where Self: Sized + AsBytes {
    /// Which byte strings parse successfully.
    spec fn parse_ok(bytes: Seq<u8>) -> bool;

    /// Rebuild the value; fails exactly on byte strings of the wrong width.
    fn from_bytes(bytes: &[u8]) -> (r: Result<Self, Error>)
        ensures
            r is Ok <==> Self::parse_ok(bytes@),
            r is Ok ==> r->Ok_0.bytes_spec() == bytes@,
            r is Err ==> r->Err_0 == Error::LengthMismatch,
    ;
}

/// Base64 encoding round-trips: a string produced by `to_base64` decodes,
/// through `from_base64_exact`, to exactly the bytes that were encoded.
/// The second hypothesis is what `to_base64` ensures of its result; the
/// third is what `from_base64_exact` ensures of a successful decode.
pub proof fn lemma_base64_round_trip(v: Seq<u8>, s: Seq<char>, d: Seq<u8>)
    requires
        s == b64_of(v),
        forall|b: Seq<u8>| b64_of(b) == s ==> b == v,
        s == b64_of(d),
    ensures
        d == v,
{
}

} // verus!
