use vstd::prelude::*;

verus! {

/// The error taxonomy of the library.
///
/// `Mac` deliberately unifies every integrity failure (wrong passphrase,
/// wrong derived secret, tampered record) so that a caller probing many
/// records cannot distinguish the cause. `Signature` covers signature
/// verification and signature parse failures. `Serialization` covers
/// malformed persisted bytes, `Store` an opaque persistence failure,
/// `LengthMismatch` a fixed-width decode that got the wrong byte count,
/// and `EncodingError` a base64 decode failure.
#[derive(Debug, Clone, Copy, PartialEq, Eq, Structural)]
pub enum Error {
    InvalidReferent,
    Mac,
    Signature,
    Serialization,
    Store,
    LengthMismatch,
    EncodingError,
}

impl Error {
    /// A short human-readable description, in place of a `Display` impl.
    pub fn describe(&self) -> String {
        match self {
            Error::InvalidReferent => "referenced entity does not exist".to_string(),
            Error::Mac => "integrity check failed".to_string(),
            Error::Signature => "signature verification failed".to_string(),
            Error::Serialization => "malformed serialized bytes".to_string(),
            Error::Store => "storage failure".to_string(),
            Error::LengthMismatch => "fixed-width decode got the wrong byte count".to_string(),
            Error::EncodingError => "base64 decode failure".to_string(),
        }
    }
}

} // verus!
