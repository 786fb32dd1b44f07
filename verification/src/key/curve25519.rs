//! The plain exchange-curve key kind.

use crate::key::curve_ops;
use crate::key::ed25519::PublicKey;
use crate::key::shared_secret::SharedSecret;
use crate::key::{Dh, Seed};
use vstd::prelude::*;

verus! {

/// Secret key of the plain exchange-curve kind: a 32-byte scalar, clamped by
/// the curve operations themselves at each use.
pub struct SecretKey {
    scalar: Vec<u8>,
}

impl SecretKey {
    /// Build a fresh secret key from caller-supplied randomness.
    pub fn new(seed: &Seed) -> (r: SecretKey)
        requires
            seed.wf(),
        ensures
            r.wf(),
            r.secret_view() == seed@,
    {
        SecretKey { scalar: crate::util::bytes_range(seed.as_bytes().as_slice(), 0, 32) }
    }

    /// The public half of this key.
    pub fn public_key(&self) -> (r: PublicKey)
        requires
            self.wf(),
        ensures
            r.wf(),
            r@ == curve_ops::x25519_base_of(self.secret_view()),
    {
        PublicKey::new(curve_ops::x25519_base(self.scalar.as_slice()))
    }

    /// Diffie-Hellman exchange with a peer's public key.
    pub fn exchange(&self, remote: &PublicKey) -> (r: SharedSecret)
        requires
            self.wf(),
            remote.wf(),
        ensures
            r.wf(),
            r@ == curve_ops::x25519_of(self.secret_view(), remote@),
    {
        SharedSecret::new(curve_ops::x25519(self.scalar.as_slice(), remote.as_bytes().as_slice()))
    }
}

impl Dh for SecretKey {
    open spec fn wf(&self) -> bool {
        self.secret_view().len() == 32
    }

    open spec fn of_seed_spec(seed: Seq<u8>) -> Seq<u8> {
        seed
    }

    closed spec fn secret_view(&self) -> Seq<u8> {
        self.scalar@
    }

    open spec fn public_of(sv: Seq<u8>) -> Seq<u8> {
        curve_ops::x25519_base_of(sv)
    }

    open spec fn dh_of(sv: Seq<u8>, remote: Seq<u8>) -> Seq<u8> {
        curve_ops::x25519_of(sv, remote)
    }

    open spec fn name_spec() -> Seq<char> {
        "25519"@
    }

    fn name() -> (r: &'static str) {
        "25519"
    }

    fn generate(seed: &Seed) -> (r: Self) {
        SecretKey::new(seed)
    }

    fn public(&self) -> (r: PublicKey) {
        self.public_key()
    }

    fn dh(&self, remote: &PublicKey) -> (r: SharedSecret) {
        self.exchange(remote)
    }

    fn dh_checked(&self, remote: &PublicKey) -> (r: Option<SharedSecret>) {
        let s = self.exchange(remote);
        if s.is_degenerate() {
            None
        } else {
            Some(s)
        }
    }
}

} // verus!
