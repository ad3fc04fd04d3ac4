use vstd::prelude::*;

use crate::bytes::{copy_bytes, wipe_bytes};
use crate::util::b64_of;

verus! {

/// The 32-byte Ed25519 public key derived from 32 secret seed bytes.
pub uninterp spec fn pk_of(seed: Seq<u8>) -> Seq<u8>;

/// The 64-byte Ed25519ph signature, under this protocol's fixed
/// domain-separation context, of the SHA-512 prehash of `data` by the
/// keypair with seed `seed`. Deterministic in its arguments.
pub uninterp spec fn sig_of(seed: Seq<u8>, data: Seq<u8>) -> Seq<u8>;

/// Whether `sig` is accepted as an Ed25519ph signature of the SHA-512
/// prehash of `data` under public key `pk`, with this protocol's fixed
/// context. Total: malformed `pk` or `sig` bytes are simply rejected.
pub uninterp spec fn sig_valid(pk: Seq<u8>, data: Seq<u8>, sig: Seq<u8>) -> bool;

/// Relies on `ed25519_dalek::PublicKey::from(&SecretKey)`: the public key
/// is a deterministic 32-byte function of the 32 secret seed bytes.
#[verifier::external_body]
pub(crate) fn ed_public_key(seed: &Vec<u8>) -> (r: Vec<u8>)
    requires
        seed@.len() == 32,
    ensures
        r@ == pk_of(seed@),
        r@.len() == 32,
{
    let secret = ed25519_dalek::SecretKey::from_bytes(seed).unwrap();
    let public = ed25519_dalek::PublicKey::from(&secret);
    public.to_bytes().to_vec()
}

/// Relies on `ed25519_dalek::Keypair::sign_prehashed` over a SHA-512
/// prehash with this protocol's fixed context: the 64-byte signature is a
/// deterministic function of the seed and the hashed bytes, and it
/// verifies under the matching public key.
#[verifier::external_body]
pub(crate) fn ed_sign(seed: &Vec<u8>, data: &Vec<u8>) -> (r: Vec<u8>)
    requires
        seed@.len() == 32,
    ensures
        r@ == sig_of(seed@, data@),
        r@.len() == 64,
        sig_valid(pk_of(seed@), data@, r@),
{
    let secret = ed25519_dalek::SecretKey::from_bytes(seed).unwrap();
    let public = ed25519_dalek::PublicKey::from(&secret);
    let keypair = ed25519_dalek::Keypair { secret, public };
    let mut hasher = sha2::Sha512::default();
    sha2::Digest::update(&mut hasher, data);
    let sig = keypair.sign_prehashed(hasher, Some(b"allegation")).unwrap();
    sig.to_bytes().to_vec()
}

/// Relies on `ed25519_dalek::PublicKey::verify_prehashed` with the same
/// prehash and context as signing: acceptance is a function of the public
/// key bytes, the hashed bytes and the signature bytes; bytes that do not
/// parse as a key or signature are rejected, never a panic.
#[verifier::external_body]
pub(crate) fn ed_verify(pk: &Vec<u8>, data: &Vec<u8>, sig: &Vec<u8>) -> (r: bool)
    ensures
        r == sig_valid(pk@, data@, sig@),
{
    let public = match ed25519_dalek::PublicKey::from_bytes(pk) {
        Ok(p) => p,
        Err(_) => return false,
    };
    let parsed = match ed25519_dalek::Signature::try_from(&sig[..]) {
        Ok(s) => s,
        Err(_) => return false,
    };
    let mut hasher = sha2::Sha512::default();
    sha2::Digest::update(&mut hasher, data);
    public.verify_prehashed(hasher, Some(b"allegation"), &parsed).is_ok()
}

/// Relies on `rand::rngs::OsRng`: 32 bytes from the operating system's
/// entropy source. Nothing is promised of the value beyond its length.
#[verifier::external_body]
fn random_seed() -> (r: Vec<u8>)
    ensures
        r@.len() == 32,
{
    let mut bytes = vec![0u8; 32];
    rand::RngCore::fill_bytes(&mut rand::rngs::OsRng, &mut bytes);
    bytes
}

/// The stable public handle of a signing identity: a deterministic
/// function of the public key, used for local indexing only.
#[derive(Debug, Clone, PartialEq, Eq)]
pub struct AgentId {
    pub id: String,
}

/// A signing identity: an Ed25519 keypair held as its 32 secret seed bytes
/// and its 32 public key bytes. The seed must never reach a custodian in
/// this form.
#[derive(Debug, PartialEq, Eq)]
pub struct AgentKey {
    pub seed: Vec<u8>,
    pub pubkey: Vec<u8>,
}

impl AgentKey {
    /// Both halves are 32 bytes and the public key matches the seed.
    pub open spec fn wf(&self) -> bool {
        self.seed@.len() == 32 && self.pubkey@.len() == 32 && self.pubkey@ == pk_of(self.seed@)
    }

    /// Create an identity, from the given 32 seed bytes or, when none are
    /// given, from fresh operating-system randomness.
    pub fn create(seed: Option<Vec<u8>>) -> (r: AgentKey)
        requires
            seed matches Some(s) ==> s@.len() == 32,
        ensures
            r.wf(),
            seed matches Some(s) ==> r.seed@ == s@,
    {
        let s = match seed {
            Option::Some(s) => s,
            Option::None => random_seed(),
        };
        let pubkey = ed_public_key(&s);
        AgentKey { seed: s, pubkey }
    }

    /// The public handle of this identity: the unpadded base64 encoding of
    /// the public key.
    pub fn id(&self) -> (r: AgentId)
        ensures
            r.id@ == b64_of(self.pubkey@),
    {
        AgentId { id: crate::util::to_base64(&self.pubkey) }
    }

    /// A copy of the 32 public key bytes, always safe to share.
    pub fn public_key(&self) -> (r: Vec<u8>)
        ensures
            r@ == self.pubkey@,
    {
        copy_bytes(&self.pubkey)
    }

    /// Overwrite the secret seed; afterwards the identity can no longer
    /// sign or be masked.
    pub fn wipe(&mut self)
        ensures
            final(self).seed@.len() == 0,
    {
        wipe_bytes(&mut self.seed);
    }
}

} // verus!
