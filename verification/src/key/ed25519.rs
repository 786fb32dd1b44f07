//! The plain signing-curve key kind, and the 32-byte public key value that
//! every key kind projects to.

use crate::key::curve_ops;
use crate::key::shared_secret::SharedSecret;
use crate::key::{Dh, Seed};
use vstd::prelude::*;

verus! {

/// A 32-byte public key: freely copyable, derived deterministically from a
/// secret key.
#[derive(Debug)]
pub struct PublicKey {
    bytes: Vec<u8>,
}

impl View for PublicKey {
    type V = Seq<u8>;

    closed spec fn view(&self) -> Seq<u8> {
        self.bytes@
    }
}

impl PublicKey {
    /// Number of bytes of a public key.
    pub open spec fn size() -> nat {
        32
    }

    /// A well-formed public key holds exactly [`PublicKey::size`] bytes.
    pub open spec fn wf(&self) -> bool {
        self@.len() == Self::size()
    }

    /// Wrap raw public-key bytes received out of band or off the wire.
    pub fn new(bytes: Vec<u8>) -> (r: PublicKey)
        requires
            bytes@.len() == 32,
        ensures
            r@ == bytes@,
            r.wf(),
    {
        PublicKey { bytes }
    }

    /// The raw public-key bytes.
    pub fn as_bytes(&self) -> (r: &Vec<u8>)
        ensures
            r@ == self@,
    {
        &self.bytes
    }
}

impl Clone for PublicKey {
    /// An equal copy of the public key value.
    fn clone(&self) -> (r: Self)
        ensures
            r@ == self@,
    {
        PublicKey { bytes: crate::util::bytes_range(self.bytes.as_slice(), 0, self.bytes.len()) }
    }
}

impl PartialEq for PublicKey {
    fn eq(&self, other: &PublicKey) -> (r: bool) {
        if self.bytes.len() != other.bytes.len() {
            return false;
        }
        let mut i: usize = 0;
        while i < self.bytes.len()
            invariant
                i <= self.bytes@.len(),
                self.bytes@.len() == other.bytes@.len(),
                forall|j: int| 0 <= j < i ==> self.bytes@[j] == other.bytes@[j],
            decreases self.bytes@.len() - i,
        {
            if self.bytes[i] != other.bytes[i] {
                return false;
            }
            i += 1;
        }
        proof {
            assert(self.bytes@ =~= other.bytes@);
        }
        true
    }
}

impl Eq for PublicKey {

}

impl vstd::std_specs::cmp::PartialEqSpecImpl for PublicKey {
    open spec fn obeys_eq_spec() -> bool {
        true
    }

    open spec fn eq_spec(&self, other: &PublicKey) -> bool {
        self@ == other@
    }
}

/// Secret key of the plain signing-curve kind: the 32-byte seed form.
pub struct SecretKey {
    seed: Vec<u8>,
}

impl SecretKey {
    /// Build a fresh secret key from caller-supplied randomness.
    pub fn new(seed: &Seed) -> (r: SecretKey)
        requires
            seed.wf(),
        ensures
            r.wf(),
            r.secret_view() == seed@,
    {
        SecretKey { seed: crate::util::bytes_range(seed.as_bytes().as_slice(), 0, 32) }
    }

    /// The public half of this key.
    pub fn public_key(&self) -> (r: PublicKey)
        requires
            self.wf(),
        ensures
            r.wf(),
            r@ == curve_ops::ed25519_public_of(self.secret_view()),
    {
        PublicKey::new(curve_ops::ed25519_public(self.seed.as_slice()))
    }

    /// Diffie-Hellman exchange with a peer's public key.
    pub fn exchange(&self, remote: &PublicKey) -> (r: SharedSecret)
        requires
            self.wf(),
            remote.wf(),
        ensures
            r.wf(),
            r@ == curve_ops::ed25519_exchange_of(self.secret_view(), remote@),
    {
        SharedSecret::new(curve_ops::ed25519_exchange(self.seed.as_slice(), remote.as_bytes().as_slice()))
    }
}

impl Dh for SecretKey {
    open spec fn wf(&self) -> bool {
        self.secret_view().len() == 32
    }

    open spec fn of_seed_spec(seed: Seq<u8>) -> Seq<u8> {
        seed
    }

    closed spec fn secret_view(&self) -> Seq<u8> {
        self.seed@
    }

    open spec fn public_of(sv: Seq<u8>) -> Seq<u8> {
        curve_ops::ed25519_public_of(sv)
    }

    open spec fn dh_of(sv: Seq<u8>, remote: Seq<u8>) -> Seq<u8> {
        curve_ops::ed25519_exchange_of(sv, remote)
    }

    open spec fn name_spec() -> Seq<char> {
        "ed25519"@
    }

    fn name() -> (r: &'static str) {
        "ed25519"
    }

    fn generate(seed: &Seed) -> (r: Self) {
        SecretKey::new(seed)
    }

    fn public(&self) -> (r: PublicKey) {
        self.public_key()
    }

    fn dh(&self, remote: &PublicKey) -> (r: SharedSecret) {
        self.exchange(remote)
    }

    fn dh_checked(&self, remote: &PublicKey) -> (r: Option<SharedSecret>) {
        let s = self.exchange(remote);
        if s.is_degenerate() {
            None
        } else {
            Some(s)
        }
    }
}

} // verus!
