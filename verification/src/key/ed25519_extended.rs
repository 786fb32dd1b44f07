//! The extended signing-curve key kind: the 64-byte expanded secret form,
//! a scalar half and a nonce-prefix half. The hierarchical-deterministic
//! kind wraps this form, so its scalar half is not necessarily clamped.

use crate::hash::blake2b_of;
use crate::key::curve_ops;
use crate::key::ed25519::PublicKey;
use crate::key::shared_secret::SharedSecret;
use crate::key::{Dh, Seed};
use crate::util::{bytes_range, bytes_zero};
use vstd::prelude::*;

verus! {

/// The clamp of the scalar half of an expanded secret: the three lowest
/// bits cleared, the highest bit cleared, the second highest bit set.
pub open spec fn spec_clamp(s: Seq<u8>) -> Seq<u8>
    recommends
        s.len() == 64,
{
    s.update(0, s[0] & 248).update(31, (s[31] & 63) | 64)
}

/// The 64-byte expanded secret a seed generates: its digest, clamped.
pub open spec fn spec_expand_seed(seed: Seq<u8>) -> Seq<u8> {
    spec_clamp(blake2b_of(seed))
}

/// The shared secret an exchange between a scalar and a peer point yields:
/// the scalar multiple of the point, or all zeros when the peer bytes are
/// not a valid point encoding.
pub open spec fn spec_scalar_dh(scalar: Seq<u8>, remote: Seq<u8>) -> Seq<u8> {
    if curve_ops::is_point_of(remote) {
        curve_ops::mul_point_of(scalar, remote)
    } else {
        SharedSecret::spec_zero()
    }
}

/// Secret key of the extended signing-curve kind.
pub struct SecretKey {
    bytes: Vec<u8>,
}

impl SecretKey {
    /// Build a fresh secret key from caller-supplied randomness.
    pub fn new(seed: &Seed) -> (r: SecretKey)
        requires
            seed.wf(),
        ensures
            r.wf(),
            r.secret_view() == spec_expand_seed(seed@),
    {
        let mut h = crate::hash::blake2b(seed.as_bytes().as_slice());
        let b0 = h[0];
        h[0] = b0 & 248;
        let b31 = h[31];
        h[31] = (b31 & 63) | 64;
        proof {
            assert(((b31 & 63) | 64) < 0x80) by (bit_vector);
        }
        SecretKey { bytes: h }
    }

    /// Wrap an already expanded 64-byte secret whose scalar half is
    /// clamped or reduced.
    pub(crate) fn from_bytes(bytes: Vec<u8>) -> (r: SecretKey)
        requires
            bytes@.len() == 64,
            bytes@[31] < 0x80,
        ensures
            r.wf(),
            r.secret_view() == bytes@,
    {
        SecretKey { bytes }
    }

    /// The raw expanded secret.
    pub(crate) fn as_bytes(&self) -> (r: &Vec<u8>)
        ensures
            r@ == self.secret_view(),
    {
        &self.bytes
    }

    /// The public half of this key.
    pub fn public_key(&self) -> (r: PublicKey)
        requires
            self.wf(),
        ensures
            r.wf(),
            r@ == curve_ops::mul_base_of(self.secret_view().subrange(0, 32)),
    {
        let scalar = bytes_range(self.bytes.as_slice(), 0, 32);
        PublicKey::new(curve_ops::scalar_mul_base(scalar.as_slice()))
    }

    /// Diffie-Hellman exchange with a peer's public key.
    pub fn exchange(&self, remote: &PublicKey) -> (r: SharedSecret)
        requires
            self.wf(),
            remote.wf(),
        ensures
            r.wf(),
            r@ == spec_scalar_dh(self.secret_view().subrange(0, 32), remote@),
    {
        let scalar = bytes_range(self.bytes.as_slice(), 0, 32);
        match curve_ops::scalar_mul_point(scalar.as_slice(), remote.as_bytes().as_slice()) {
            Some(shared) => SharedSecret::new(shared),
            None => SharedSecret::new(bytes_zero(32)),
        }
    }
}

impl Dh for SecretKey {
    open spec fn wf(&self) -> bool {
        self.secret_view().len() == 64 && self.secret_view()[31] < 0x80
    }

    open spec fn of_seed_spec(seed: Seq<u8>) -> Seq<u8> {
        spec_expand_seed(seed)
    }

    closed spec fn secret_view(&self) -> Seq<u8> {
        self.bytes@
    }

    open spec fn public_of(sv: Seq<u8>) -> Seq<u8> {
        curve_ops::mul_base_of(sv.subrange(0, 32))
    }

    open spec fn dh_of(sv: Seq<u8>, remote: Seq<u8>) -> Seq<u8> {
        spec_scalar_dh(sv.subrange(0, 32), remote)
    }

    open spec fn name_spec() -> Seq<char> {
        "ed25519"@
    }

    fn name() -> (r: &'static str) {
        "ed25519"
    }

    fn generate(seed: &Seed) -> (r: Self) {
        SecretKey::new(seed)
    }

    fn public(&self) -> (r: PublicKey) {
        self.public_key()
    }

    fn dh(&self, remote: &PublicKey) -> (r: SharedSecret) {
        self.exchange(remote)
    }

    fn dh_checked(&self, remote: &PublicKey) -> (r: Option<SharedSecret>) {
        let s = self.exchange(remote);
        if s.is_degenerate() {
            None
        } else {
            Some(s)
        }
    }
}

} // verus!
