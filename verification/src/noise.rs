//! The IK handshake and the rekeying transport built on it.

use vstd::prelude::*;

pub mod cipher_state;
pub mod ik;
pub mod transport_state;

pub use cipher_state::{CipherState, CipherStateError};
pub use ik::{HandshakeError, Ik, WaitB};
pub use transport_state::{TransportReceiveHalf, TransportSendHalf, TransportState};

verus! {

} // verus!
