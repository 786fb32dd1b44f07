//! Cryptographic identity, key agreement and an authenticated transport
//! session between two parties that know each other's long-term public keys.
//!
//! The crate offers:
//!
//! - several interchangeable Diffie-Hellman key kinds behind the [`key::Dh`]
//!   capability trait, including a hierarchical-deterministic kind whose
//!   children are addressed by arbitrary byte-string paths;
//! - the two-message `IK` handshake (the initiator knows the responder's
//!   static public key in advance), which authenticates both parties and
//!   yields one cipher stream per direction;
//! - a transport session over those two streams that authenticates every
//!   message and derives a fresh key after each one.

use vstd::prelude::*;

pub mod hash;
pub mod key;
pub mod noise;
mod util;

verus! {

} // verus!
