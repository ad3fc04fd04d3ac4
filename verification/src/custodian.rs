use vstd::prelude::*;

use crate::agent::{ed_public_key, pk_of, AgentKey};
use crate::bytes::{concat_bytes, copy_bytes, ct_eq_bytes, lemma_xor_involution, xor_bytes, xor_seq};
use crate::error::Error;
use crate::kdf::{hmac256, hmac256_of, PassKey};
use crate::util::{b64_of, to_base64, AsBytes};

verus! {

/// The authentication secret a custodian stores to verify a requester's
/// possession claim for a label. It must not, alone or with public data,
/// allow recovery of the masking secret or the private seed.
#[derive(Debug, Clone, PartialEq, Eq)]
pub struct UserAuthKey {
    pub auth: Vec<u8>,
}

impl UserAuthKey {
    /// The secret is 32 bytes wide.
    pub open spec fn wf(&self) -> bool {
        self.auth@.len() == 32
    }
}

/// A private seed XORed with a masking secret, so that the private key is
/// recoverable with the custodian's help but never disclosed to it.
#[derive(Debug, Clone, PartialEq, Eq)]
pub struct KeyMask {
    pub mask: Vec<u8>,
}

impl KeyMask {
    /// The mask is 32 bytes wide.
    pub open spec fn wf(&self) -> bool {
        self.mask@.len() == 32
    }

    /// The unpadded base64 encoding of the mask bytes.
    pub fn base64(&self) -> (r: String)
        ensures
            r@ == b64_of(self.mask@),
    {
        to_base64(&self.mask)
    }

    /// Borrow the raw mask bytes.
    pub fn as_bytes(&self) -> (r: &Vec<u8>)
        ensures
            r@ == self.mask@,
    {
        &self.mask
    }
}

/// The only form of the private key a custodian may ever hold: the public
/// key in plaintext, the masked seed, an integrity check binding the mask
/// and public key to the masking secret, and optional non-secret metadata.
#[derive(Debug, Clone, PartialEq, Eq)]
pub struct CustodialAgentKey {
    pub pubkey: Vec<u8>,
    pub mask: KeyMask,
    pub check: Vec<u8>,
    pub email: Option<String>,
}

/// Whether two custodial records hold the same contents, field for field.
pub open spec fn same_custodial(a: CustodialAgentKey, b: CustodialAgentKey) -> bool {
    a.pubkey@ == b.pubkey@ && a.mask.mask@ == b.mask.mask@ && a.check@ == b.check@ && a.email
        == b.email
}

impl CustodialAgentKey {
    /// All fixed-width fields are 32 bytes wide.
    pub open spec fn wf(&self) -> bool {
        self.pubkey@.len() == 32 && self.mask.wf() && self.check@.len() == 32
    }

    /// A field-for-field copy, so that a store can hand records out
    /// without surrendering its own.
    pub fn duplicate(&self) -> (r: CustodialAgentKey)
        ensures
            same_custodial(r, *self),
    {
        let email = match &self.email {
            Option::Some(e) => Option::Some(e.clone()),
            Option::None => Option::None,
        };
        CustodialAgentKey {
            pubkey: copy_bytes(&self.pubkey),
            mask: KeyMask { mask: copy_bytes(&self.mask.mask) },
            check: copy_bytes(&self.check),
            email,
        }
    }
}

/// The context tag bound into every integrity check.
pub open spec fn check_label() -> Seq<u8> {
    // "check"
    seq![99u8, 104, 101, 99, 107]
}

fn check_label_bytes() -> (r: Vec<u8>)
    ensures
        r@ == check_label(),
{
    let mut v: Vec<u8> = Vec::new();
    v.push(99);
    v.push(104);
    v.push(101);
    v.push(99);
    v.push(107);
    proof {
        assert(v@ =~= check_label());
    }
    v
}

/// The integrity check of a custodial record: a keyed hash, under the
/// masking secret, of the mask, the public key and a fixed context tag.
/// It cannot be recomputed without the masking secret, and unmasking with
/// a wrong secret fails it with overwhelming probability.
pub open spec fn check_of(mask_secret: Seq<u8>, mask: Seq<u8>, pk: Seq<u8>) -> Seq<u8> {
    hmac256_of(mask_secret, mask + pk + check_label())
}

fn compute_check(mask_secret: &Vec<u8>, mask: &Vec<u8>, pk: &Vec<u8>) -> (r: Vec<u8>)
    ensures
        r@ == check_of(mask_secret@, mask@, pk@),
        r@.len() == 32,
{
    let data = concat_bytes(&concat_bytes(mask, pk), &check_label_bytes());
    hmac256(mask_secret, &data)
}

impl PassKey {
    /// The authentication half of the derived secrets, the only part that
    /// may travel to a custodian.
    pub fn auth(&self) -> (r: UserAuthKey)
        requires
            self.wf(),
        ensures
            r.wf(),
            r.auth@ == self.auth@,
    {
        UserAuthKey { auth: copy_bytes(&self.auth) }
    }
}

impl AgentKey {
    /// Mask this identity for custody: XOR the seed with the masking
    /// secret and bind mask, public key and context into an integrity
    /// check. Pure and total; the custodian learns nothing of the seed.
    pub fn custodial_key(&self, passkey: &PassKey) -> (r: CustodialAgentKey)
        requires
            self.wf(),
            passkey.wf(),
        ensures
            r.wf(),
            r.pubkey@ == self.pubkey@,
            r.mask.mask@ == xor_seq(self.seed@, passkey.mask@),
            r.check@ == check_of(passkey.mask@, r.mask.mask@, self.pubkey@),
            r.email is None,
    {
        let mask = xor_bytes(&self.seed, &passkey.mask);
        let check = compute_check(&passkey.mask, &mask, &self.pubkey);
        CustodialAgentKey {
            pubkey: copy_bytes(&self.pubkey),
            mask: KeyMask { mask },
            check,
            email: Option::None,
        }
    }

    /// Unmask a custodial record. Succeeds exactly when the recomputed
    /// integrity check matches the stored one and the candidate seed's
    /// public key matches the stored public key; every failure is reported
    /// as the same `Mac` error, so a caller probing records cannot tell
    /// the causes apart. Both comparisons avoid early exits.
    pub fn from_custodial_key(custodial: &CustodialAgentKey, passkey: &PassKey) -> (r: Result<
        AgentKey,
        Error,
    >)
        requires
            custodial.wf(),
            passkey.wf(),
        ensures
            ({
                let cand = xor_seq(custodial.mask.mask@, passkey.mask@);
                let accept = custodial.check@ == check_of(
                    passkey.mask@,
                    custodial.mask.mask@,
                    custodial.pubkey@,
                ) && pk_of(cand) == custodial.pubkey@;
                &&& r is Ok <==> accept
                &&& r is Ok ==> r->Ok_0.seed@ == cand && r->Ok_0.pubkey@ == custodial.pubkey@
                    && r->Ok_0.wf()
                &&& r is Err ==> r->Err_0 == Error::Mac
            }),
    {
        let mut cand = xor_bytes(&custodial.mask.mask, &passkey.mask);
        let expected = compute_check(&passkey.mask, &custodial.mask.mask, &custodial.pubkey);
        let check_ok = ct_eq_bytes(&expected, &custodial.check);
        let cand_pk = ed_public_key(&cand);
        let pk_ok = ct_eq_bytes(&cand_pk, &custodial.pubkey);
        if check_ok && pk_ok {
            Ok(AgentKey { seed: cand, pubkey: copy_bytes(&custodial.pubkey) })
        } else {
            crate::bytes::wipe_bytes(&mut cand);
            Err(Error::Mac)
        }
    }
}

/// Masking and unmasking round-trip. The hypotheses are exactly what
/// `custodial_key` ensures of the record it builds from a well-formed
/// identity `k` and masking secret `m`; the conclusions are exactly the
/// acceptance condition of `from_custodial_key` together with the identity
/// of the recovered seed. So unmasking a freshly masked record with the
/// same secret always succeeds and returns the original identity.
pub proof fn lemma_mask_round_trip(k: AgentKey, m: Seq<u8>, mask: Seq<u8>, check: Seq<u8>)
    requires
        k.wf(),
        m.len() == 32,
        mask == xor_seq(k.seed@, m),
        check == check_of(m, mask, k.pubkey@),
    ensures
        check == check_of(m, mask, k.pubkey@),
        xor_seq(mask, m) == k.seed@,
        pk_of(xor_seq(mask, m)) == k.pubkey@,
{
    lemma_xor_involution(k.seed@, m);
}

impl AsBytes for UserAuthKey {
    open spec fn bytes_spec(&self) -> Seq<u8> {
        self.auth@
    }

    fn as_bytes(&self) -> (r: Vec<u8>) {
        copy_bytes(&self.auth)
    }
}

impl AsBytes for KeyMask {
    open spec fn bytes_spec(&self) -> Seq<u8> {
        self.mask@
    }

    fn as_bytes(&self) -> (r: Vec<u8>) {
        copy_bytes(&self.mask)
    }
}

} // verus!
