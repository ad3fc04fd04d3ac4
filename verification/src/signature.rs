use vstd::prelude::*;

use crate::agent::{ed_sign, ed_verify, sig_of, sig_valid, AgentKey};
use crate::bytes::{concat_bytes, copy_bytes};
use crate::error::Error;
use crate::util::{b64_of, to_base64, try_64_from_slice, AsBytes, TryFromBytes};

verus! {

/// The concatenation, in order, of a tuple of byte-serialized fields: the
/// bytes that the signing prehash is computed over.
pub open spec fn concat_all(fs: Seq<Seq<u8>>) -> Seq<u8>
    decreases fs.len(),
{
    if fs.len() == 0 {
        Seq::empty()
    } else {
        fs[0] + concat_all(fs.drop_first())
    }
}

proof fn lemma_concat_all_push(fs: Seq<Seq<u8>>, x: Seq<u8>)
    ensures
        concat_all(fs.push(x)) == concat_all(fs) + x,
    decreases fs.len(),
{
    if fs.len() == 0 {
        assert(fs.push(x).drop_first() =~= Seq::<Seq<u8>>::empty());
        assert(fs.push(x)[0] == x);
        assert(concat_all(fs.push(x)) == x + concat_all(Seq::<Seq<u8>>::empty()));
        assert(x + Seq::<u8>::empty() =~= x);
        assert(concat_all(fs) + x =~= x);
    } else {
        lemma_concat_all_push(fs.drop_first(), x);
        assert(fs.push(x).drop_first() =~= fs.drop_first().push(x));
        assert(fs.push(x)[0] == fs[0]);
        assert(concat_all(fs.push(x)) == fs[0] + (concat_all(fs.drop_first()) + x));
        assert(fs[0] + (concat_all(fs.drop_first()) + x) =~= (fs[0] + concat_all(fs.drop_first()))
            + x);
        assert(concat_all(fs.push(x)) =~= concat_all(fs) + x);
    }
}

/// Concatenate 1 to 4 serialized fields into the bytes to be prehashed.
fn concat_fields(content: &Vec<Vec<u8>>) -> (r: Vec<u8>)
    ensures
        r@ == concat_all(content.deep_view()),
{
    let mut out: Vec<u8> = Vec::new();
    let n = content.len();
    proof {
        assert(content.deep_view().take(0) =~= Seq::<Seq<u8>>::empty());
    }
    for i in 0..n
        invariant
            n == content@.len(),
            content.deep_view().len() == n,
            out@ == concat_all(content.deep_view().take(i as int)),
    {
        out = concat_bytes(&out, &content[i]);
        proof {
            let fs = content.deep_view();
            lemma_concat_all_push(fs.take(i as int), fs[i as int]);
            assert(fs.take(i as int).push(fs[i as int]) =~= fs.take(i + 1));
            assert(content@[i as int]@ == fs[i as int]);
        }
    }
    proof {
        assert(content.deep_view().take(n as int) =~= content.deep_view());
    }
    out
}

/// A 64-byte domain-separated signature over the prehash of 1 to 4
/// serialized fields, bound to one signing identity.
#[derive(Debug, Clone, PartialEq, Eq)]
pub struct Signature {
    pub sig: Vec<u8>,
}

impl Signature {
    /// The signature is 64 bytes wide.
    pub open spec fn wf(&self) -> bool {
        self.sig@.len() == 64
    }

    /// Sign the concatenation of `content`'s fields with `agentkey`. The
    /// domain-separation context is fixed for this protocol, so the
    /// signature can never be replayed in an unrelated protocol hashing
    /// the same bytes. Always succeeds on a well-formed identity, and the
    /// result verifies under the identity's public key.
    pub fn new(agentkey: &AgentKey, content: &Vec<Vec<u8>>) -> (r: Result<Signature, Error>)
        requires
            agentkey.wf(),
            1 <= content@.len() <= 4,
        ensures
            r is Ok,
            r->Ok_0.wf(),
            r->Ok_0.sig@ == sig_of(agentkey.seed@, concat_all(content.deep_view())),
            sig_valid(agentkey.pubkey@, concat_all(content.deep_view()), r->Ok_0.sig@),
    {
        let msg = concat_fields(content);
        let sig = ed_sign(&agentkey.seed, &msg);
        Ok(Signature { sig })
    }

    /// Check a signature over `content` using only a public key. Total:
    /// malformed key or signature bytes yield `false`, never a panic.
    pub fn verify(pubkey: &Vec<u8>, content: &Vec<Vec<u8>>, sig: &Signature) -> (r: bool)
        requires
            1 <= content@.len() <= 4,
        ensures
            r == sig_valid(pubkey@, concat_all(content.deep_view()), sig.sig@),
    {
        let msg = concat_fields(content);
        ed_verify(pubkey, &msg, &sig.sig)
    }

    /// The unpadded base64 encoding of the signature bytes.
    pub fn base64(&self) -> (r: String)
        ensures
            r@ == b64_of(self.sig@),
    {
        to_base64(&self.sig)
    }
}

impl AsBytes for Signature {
    open spec fn bytes_spec(&self) -> Seq<u8> {
        self.sig@
    }

    fn as_bytes(&self) -> (r: Vec<u8>) {
        copy_bytes(&self.sig)
    }
}

impl TryFromBytes for Signature {
    open spec fn parse_ok(bytes: Seq<u8>) -> bool {
        bytes.len() == 64
    }

    fn from_bytes(bytes: &[u8]) -> (r: Result<Signature, Error>) {
        match try_64_from_slice(bytes) {
            Ok(sig) => Ok(Signature { sig }),
            Err(e) => Err(e),
        }
    }
}

} // verus!
