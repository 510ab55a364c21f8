//! Authentication of webhook requests: an Ed25519 signature over the
//! timestamp header and the raw body, and a freshness window on the
//! timestamp.

pub mod signature;
pub mod verify;
