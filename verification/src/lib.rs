//! Keyplace: recoverable custody of a signing identity.
//!
//! A user derives two independent secrets from a passphrase, masks the
//! private half of a signing keypair with one of them, and hands only the
//! masked form (plus an integrity check) to an untrusted custodian. The
//! custodian can later return the masked material to anyone who proves
//! possession of the other derived secret, and only a caller who can
//! reproduce the original mask recovers the private key.

pub mod agent;
pub mod bytes;
pub mod custodian;
pub mod error;
pub mod kdf;
pub mod signature;
pub mod store;
pub mod util;

pub use error::Error;
