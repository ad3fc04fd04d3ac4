use vstd::prelude::*;

use crate::bytes::wipe_bytes;

verus! {

use vstd::string::StringSliceAdditionalSpecFns;

/// The 32-byte scrypt derivation of a password with a salt, at this
/// library's fixed cost parameters.
pub uninterp spec fn scrypt_of(pass: Seq<u8>, salt: Seq<u8>) -> Seq<u8>;

/// The HMAC-SHA-256 of a message under a key.
pub uninterp spec fn hmac256_of(key: Seq<u8>, data: Seq<u8>) -> Seq<u8>;

/// Relies on `scrypt::scrypt`: a memory-hard derivation whose 32-byte output
/// is a function of the password and salt alone (parameters are fixed here).
#[verifier::external_body]
fn scrypt32(pass: &Vec<u8>, salt: &Vec<u8>) -> (r: Vec<u8>)
    ensures
        r@ == scrypt_of(pass@, salt@),
        r@.len() == 32,
{
    let params = scrypt::Params::new(10, 8, 1).unwrap();
    let mut out = vec![0u8; 32];
    scrypt::scrypt(pass, salt, &params, &mut out).unwrap();
    out
}

/// Relies on `hmac::Hmac<sha2::Sha256>`: the 32-byte keyed hash is a
/// function of the key and message alone, and any key length is accepted.
#[verifier::external_body]
pub(crate) fn hmac256(key: &Vec<u8>, data: &Vec<u8>) -> (r: Vec<u8>)
    ensures
        r@ == hmac256_of(key@, data@),
        r@.len() == 32,
{
    let mut mac = <hmac::Hmac<sha2::Sha256> as hmac::NewMac>::new_varkey(key).unwrap();
    hmac::Mac::update(&mut mac, data);
    hmac::Mac::finalize(mac).into_bytes().to_vec()
}

/// The fixed, public salt of the derivation. The derivation is deliberately
/// saltless from the user's point of view, so that recovery needs nothing
/// stored out of band; this constant only separates this protocol's
/// derivations from other uses of scrypt.
pub open spec fn kdf_salt() -> Seq<u8> {
    // "keyplace/kdf/1"
    seq![107u8, 101, 121, 112, 108, 97, 99, 101, 47, 107, 100, 102, 47, 49]
}

/// The domain-separation label under which the masking secret is derived.
pub open spec fn mask_label() -> Seq<u8> {
    // "mask"
    seq![109u8, 97, 115, 107]
}

/// The domain-separation label under which the authentication secret is
/// derived.
pub open spec fn auth_label() -> Seq<u8> {
    // "auth"
    seq![97u8, 117, 116, 104]
}

fn kdf_salt_bytes() -> (r: Vec<u8>)
    ensures
        r@ == kdf_salt(),
{
    let mut v: Vec<u8> = Vec::new();
    v.push(107);
    v.push(101);
    v.push(121);
    v.push(112);
    v.push(108);
    v.push(97);
    v.push(99);
    v.push(101);
    v.push(47);
    v.push(107);
    v.push(100);
    v.push(102);
    v.push(47);
    v.push(49);
    proof {
        assert(v@ =~= kdf_salt());
    }
    v
}

fn mask_label_bytes() -> (r: Vec<u8>)
    ensures
        r@ == mask_label(),
{
    let mut v: Vec<u8> = Vec::new();
    v.push(109);
    v.push(97);
    v.push(115);
    v.push(107);
    proof {
        assert(v@ =~= mask_label());
    }
    v
}

fn auth_label_bytes() -> (r: Vec<u8>)
    ensures
        r@ == auth_label(),
{
    let mut v: Vec<u8> = Vec::new();
    v.push(97);
    v.push(117);
    v.push(116);
    v.push(104);
    proof {
        assert(v@ =~= auth_label());
    }
    v
}

/// The intermediate memory-hard secret of a passphrase.
pub open spec fn root_secret_of(pass: Seq<u8>) -> Seq<u8> {
    scrypt_of(pass, kdf_salt())
}

/// The secret that masks a private key, derived from a passphrase.
pub open spec fn mask_secret_of(pass: Seq<u8>) -> Seq<u8> {
    hmac256_of(root_secret_of(pass), mask_label())
}

/// The secret that proves label ownership to a custodian, derived from the
/// same passphrase under a distinct label.
pub open spec fn auth_secret_of(pass: Seq<u8>) -> Seq<u8> {
    hmac256_of(root_secret_of(pass), auth_label())
}

/// The pair of secrets derived from one passphrase: a masking secret, which
/// never leaves the user, and an authentication secret, which may travel to
/// the custodian.
pub struct PassKey {
    pub mask: Vec<u8>,
    pub auth: Vec<u8>,
}

impl PassKey {
    /// Both secrets are 32 bytes wide.
    pub open spec fn wf(&self) -> bool {
        self.mask@.len() == 32 && self.auth@.len() == 32
    }

    /// Whether these are exactly the secrets that `passphrase` derives.
    pub open spec fn derived_from(&self, pass: Seq<u8>) -> bool {
        self.mask@ == mask_secret_of(pass) && self.auth@ == auth_secret_of(pass)
    }

    /// Derive both secrets from a passphrase. Deterministic: the result is a
    /// function of the passphrase bytes alone. Any passphrase, even an empty
    /// one, is accepted; entropy is the caller's responsibility.
    pub fn new(passphrase: &str) -> (r: PassKey)
        ensures
            r.wf(),
            r.derived_from(passphrase.spec_bytes()),
    {
        let pass_bytes = vstd::slice::slice_to_vec(passphrase.as_bytes());
        let salt = kdf_salt_bytes();
        let mut root = scrypt32(&pass_bytes, &salt);
        let mask = hmac256(&root, &mask_label_bytes());
        let auth = hmac256(&root, &auth_label_bytes());
        wipe_bytes(&mut root);
        PassKey { mask, auth }
    }

    /// Overwrite both secrets; afterwards the value holds nothing.
    pub fn wipe(&mut self)
        ensures
            final(self).mask@.len() == 0,
            final(self).auth@.len() == 0,
    {
        wipe_bytes(&mut self.mask);
        wipe_bytes(&mut self.auth);
    }
}

/// Derivation is deterministic: identical passphrase bytes always yield
/// identical masking and authentication secrets.
pub proof fn lemma_derive_deterministic(pass1: Seq<u8>, pass2: Seq<u8>)
    requires
        pass1 == pass2,
    ensures
        mask_secret_of(pass1) == mask_secret_of(pass2),
        auth_secret_of(pass1) == auth_secret_of(pass2),
{
}

} // verus!
