//! Key kinds for signing-curve and exchange-curve identities, unified by the
//! [`Dh`] capability trait: generate a key from caller-supplied randomness,
//! expose the public key, and perform a Diffie-Hellman exchange producing a
//! [`SharedSecret`].

use vstd::prelude::*;

pub mod curve25519;
pub mod ed25519;
pub mod ed25519_extended;
pub mod ed25519_hd;
mod curve_ops;
mod shared_secret;

pub use shared_secret::SharedSecret;

verus! {

/// Externally-sourced randomness for key generation: the library never seeds
/// its own entropy source, callers hand it one of these.
pub struct Seed {
    bytes: Vec<u8>,
}

impl View for Seed {
    type V = Seq<u8>;

    closed spec fn view(&self) -> Seq<u8> {
        self.bytes@
    }
}

impl Seed {
    /// Number of bytes of a seed.
    pub open spec fn size() -> nat {
        32
    }

    /// A well-formed seed holds exactly [`Seed::size`] bytes.
    pub open spec fn wf(&self) -> bool {
        self@.len() == Self::size()
    }

    /// Wrap caller-supplied random bytes.
    pub fn new(bytes: Vec<u8>) -> (r: Seed)
        requires
            bytes@.len() == 32,
        ensures
            r@ == bytes@,
            r.wf(),
    {
        Seed { bytes }
    }

    /// Relies on rand's `random`: draws 32 bytes from the thread-local
    /// cryptographically secure generator. Nothing can be promised of the
    /// value beyond its length.
    #[verifier::external_body]
    pub fn random() -> (r: Seed)
        ensures
            r.wf(),
    {
        Seed { bytes: rand::random::<[u8; 32]>().to_vec() }
    }

    /// The raw seed bytes.
    pub fn as_bytes(&self) -> (r: &Vec<u8>)
        ensures
            r@ == self@,
    {
        &self.bytes
    }
}

/// Capability shared by every key kind: expose the public key and perform a
/// raw Diffie-Hellman exchange with a peer's public key. Generation is a
/// deterministic function of the caller-supplied seed; the exchange and the
/// public projection are deterministic functions of the key.
pub trait Dh: Sized {
    /// Well-formedness of the secret key material.
    spec fn wf(&self) -> bool;

    /// The secret key material, as bytes, that a seed generates.
    spec fn of_seed_spec(seed: Seq<u8>) -> Seq<u8>;

    /// The secret key material of this key, as bytes.
    spec fn secret_view(&self) -> Seq<u8>;

    /// The public key that secret key material projects to.
    spec fn public_of(sv: Seq<u8>) -> Seq<u8>;

    /// The shared secret of an exchange between secret key material and a
    /// peer public key.
    spec fn dh_of(sv: Seq<u8>, remote: Seq<u8>) -> Seq<u8>;

    /// The name of the underlying curve scheme, as a character sequence.
    spec fn name_spec() -> Seq<char>;

    /// Short name of the underlying curve scheme.
    fn name() -> (r: &'static str)
        ensures
            r@ == Self::name_spec(),
    ;

    /// Deterministically build a fresh secret key from a seed.
    fn generate(seed: &Seed) -> (r: Self)
        requires
            seed.wf(),
        ensures
            r.wf(),
            r.secret_view() == Self::of_seed_spec(seed@),
    ;

    /// Pure projection to the public key.
    fn public(&self) -> (r: ed25519::PublicKey)
        requires
            self.wf(),
        ensures
            r.wf(),
            r@ == Self::public_of(self.secret_view()),
    ;

    /// Raw Diffie-Hellman exchange between this secret key and a peer's
    /// public key. A degenerate (low-order/identity) peer point yields the
    /// all-zero shared secret, which callers must reject; [`Dh::dh_checked`]
    /// performs that rejection itself.
    fn dh(&self, remote: &ed25519::PublicKey) -> (r: SharedSecret)
        requires
            self.wf(),
            remote.wf(),
        ensures
            r.wf(),
            r@ == Self::dh_of(self.secret_view(), remote@),
    ;

    /// Diffie-Hellman exchange that reports a degenerate (low-order or
    /// invalid) peer point as a failure instead of handing back an unsafe
    /// shared secret.
    fn dh_checked(&self, remote: &ed25519::PublicKey) -> (r: Option<SharedSecret>)
        requires
            self.wf(),
            remote.wf(),
        ensures
            r is Some <==> Self::dh_of(self.secret_view(), remote@) != SharedSecret::spec_zero(),
            r is Some ==> r.unwrap()@ == Self::dh_of(self.secret_view(), remote@),
            r is Some ==> r.unwrap().wf(),
    ;
}

} // verus!
