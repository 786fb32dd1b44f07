//! The hierarchical-deterministic key kind: an extended secret key plus a
//! chain code. A child key is addressed by an arbitrary byte-string path,
//! and deriving a child of the public key alone yields the public
//! counterpart of the child of the secret key, without any secret material.
//!
//! The child scalar is the parent scalar plus eight times a 28-byte value
//! drawn from a keyed digest of the parent public key and the path, reduced
//! modulo the group order; the matching child point is the parent point
//! plus the base-point multiple of that same value.

use crate::hash::{hmac_blake2b, spec_hmac};
use crate::key::curve_ops;
use crate::key::ed25519::PublicKey;
use crate::key::ed25519_extended;
use crate::key::shared_secret::SharedSecret;
use crate::key::{Dh, Seed};
use crate::util::{bytes_concat, bytes_range, bytes_zero};
use vstd::prelude::*;

verus! {

/// Carry into position `i` of the little-endian byte-wise sum of `a` and `b`.
pub open spec fn spec_carry(a: Seq<u8>, b: Seq<u8>, i: int) -> u8
    decreases i,
{
    if i <= 0 {
        0u8
    } else if a[i - 1] + b[i - 1] + spec_carry(a, b, i - 1) >= 256 {
        1u8
    } else {
        0u8
    }
}

/// The 33-byte little-endian sum of two 32-byte little-endian values.
pub open spec fn spec_sum33(a: Seq<u8>, b: Seq<u8>) -> Seq<u8>
    recommends
        a.len() == 32,
        b.len() == 32,
{
    Seq::new(
        33,
        |i: int|
            if i < 32 {
                (((a[i] + b[i] + spec_carry(a, b, i)) % 256) as u8)
            } else {
                spec_carry(a, b, 32)
            },
    )
}

/// The first 28 bytes of `z`, multiplied by eight, as a 64-byte
/// little-endian value.
pub open spec fn spec_delta_wide(z: Seq<u8>) -> Seq<u8>
    recommends
        z.len() == 64,
{
    Seq::new(
        64,
        |i: int|
            if i == 0 {
                z[0] << 3
            } else if i < 28 {
                (z[i] << 3) | (z[i - 1] >> 5)
            } else if i == 28 {
                z[27] >> 5
            } else {
                0u8
            },
    )
}

/// The keyed digest a derivation step draws its scalar offset from.
pub open spec fn spec_z(public: Seq<u8>, cc: Seq<u8>, path: Seq<u8>) -> Seq<u8> {
    spec_hmac(cc, seq![1u8] + public + path)
}

/// The chain code of the derived child.
pub open spec fn spec_child_cc(public: Seq<u8>, cc: Seq<u8>, path: Seq<u8>) -> Seq<u8> {
    spec_hmac(cc, seq![2u8] + public + path).subrange(0, 32)
}

/// The scalar offset of a derivation step, reduced modulo the group order.
pub open spec fn spec_delta(z: Seq<u8>) -> Seq<u8> {
    curve_ops::reduce_wide_of(spec_delta_wide(z))
}

/// The child scalar: parent scalar plus offset, reduced modulo the group
/// order.
pub open spec fn spec_child_scalar(scalar: Seq<u8>, z: Seq<u8>) -> Seq<u8> {
    curve_ops::reduce_wide_of(spec_sum33(scalar, spec_delta(z)) + Seq::new(31, |i: int| 0u8))
}

/// The child point: parent point plus the base-point multiple of the offset.
pub open spec fn spec_child_public(public: Seq<u8>, z: Seq<u8>) -> Seq<u8> {
    curve_ops::point_add_of(public, curve_ops::mul_base_of(spec_delta(z)))
}

/// The compressed encoding of the identity point, a degenerate child.
pub open spec fn spec_identity_point() -> Seq<u8> {
    Seq::new(32, |i: int| if i == 0 { 1u8 } else { 0u8 })
}

/// The secret material of the child of a secret key: child extended key
/// (scalar then nonce prefix), then child chain code.
pub open spec fn spec_derive_secret(sv: Seq<u8>, path: Seq<u8>) -> Seq<u8>
    recommends
        sv.len() == 96,
{
    let scalar = sv.subrange(0, 32);
    let cc = sv.subrange(64, 96);
    let public = curve_ops::mul_base_of(scalar);
    let z = spec_z(public, cc, path);
    spec_child_scalar(scalar, z) + z.subrange(32, 64) + spec_child_cc(public, cc, path)
}

fn add_le32(a: &[u8], b: &[u8]) -> (r: Vec<u8>)
    requires
        a@.len() == 32,
        b@.len() == 32,
    ensures
        r@ == spec_sum33(a@, b@),
{
    let mut r: Vec<u8> = Vec::new();
    let mut carry: u8 = 0;
    let mut i: usize = 0;
    while i < 32
        invariant
            i <= 32,
            a@.len() == 32,
            b@.len() == 32,
            r@.len() == i,
            carry == spec_carry(a@, b@, i as int),
            forall|j: int|
                0 <= j < i ==> r@[j] == (((a@[j] + b@[j] + spec_carry(a@, b@, j)) % 256) as u8),
        decreases 32 - i,
    {
        let s: u16 = a[i] as u16 + b[i] as u16 + carry as u16;
        r.push((s % 256) as u8);
        carry = (s / 256) as u8;
        i += 1;
    }
    r.push(carry);
    proof {
        assert(r@ =~= spec_sum33(a@, b@));
    }
    r
}

fn delta_wide(z: &[u8]) -> (r: Vec<u8>)
    requires
        z@.len() == 64,
    ensures
        r@ == spec_delta_wide(z@),
        r@.len() == 64,
{
    let mut r: Vec<u8> = Vec::new();
    r.push(z[0] << 3u8);
    let mut i: usize = 1;
    while i < 28
        invariant
            1 <= i <= 28,
            z@.len() == 64,
            r@.len() == i,
            forall|j: int| 0 <= j < i ==> r@[j] == spec_delta_wide(z@)[j],
        decreases 28 - i,
    {
        r.push((z[i] << 3u8) | (z[i - 1] >> 5u8));
        i += 1;
    }
    r.push(z[27] >> 5u8);
    let mut k: usize = 29;
    while k < 64
        invariant
            29 <= k <= 64,
            z@.len() == 64,
            r@.len() == k,
            forall|j: int| 0 <= j < k ==> r@[j] == spec_delta_wide(z@)[j],
        decreases 64 - k,
    {
        r.push(0u8);
        k += 1;
    }
    proof {
        assert(r@ =~= spec_delta_wide(z@));
    }
    r
}

fn is_identity(b: &[u8]) -> (r: bool)
    requires
        b@.len() == 32,
    ensures
        r <==> b@ == spec_identity_point(),
{
    if b[0] != 1u8 {
        proof {
            assert(b@ != spec_identity_point()) by {
                assert(spec_identity_point()[0] == 1u8);
            }
        }
        return false;
    }
    let mut i: usize = 1;
    while i < 32
        invariant
            1 <= i <= 32,
            b@.len() == 32,
            b@[0] == 1u8,
            forall|j: int| 1 <= j < i ==> b@[j] == 0u8,
        decreases 32 - i,
    {
        if b[i] != 0u8 {
            proof {
                assert(b@ != spec_identity_point()) by {
                    assert(spec_identity_point()[i as int] == 0u8);
                }
            }
            return false;
        }
        i += 1;
    }
    proof {
        assert(b@ =~= spec_identity_point());
    }
    true
}

fn derivation_input(tag: u8, public: &[u8], path: &[u8]) -> (r: Vec<u8>)
    ensures
        r@ == seq![tag] + public@ + path@,
{
    let mut head: Vec<u8> = Vec::new();
    head.push(tag);
    proof {
        assert(head@ =~= seq![tag]);
    }
    let with_public = bytes_concat(head.as_slice(), public);
    let r = bytes_concat(with_public.as_slice(), path);
    proof {
        assert(r@ =~= seq![tag] + public@ + path@);
    }
    r
}

/// Secret key of the hierarchical-deterministic kind: an extended secret
/// key and a 32-byte chain code.
pub struct SecretKey {
    key: ed25519_extended::SecretKey,
    chain_code: Vec<u8>,
}

impl SecretKey {
    /// Build a fresh secret key from caller-supplied randomness.
    pub fn new(seed: &Seed) -> (r: SecretKey)
        requires
            seed.wf(),
        ensures
            r.wf(),
            r.secret_view() == Self::of_seed_spec(seed@),
    {
        let mut tag0: Vec<u8> = Vec::new();
        tag0.push(0u8);
        proof {
            assert(tag0@ =~= seq![0u8]);
        }
        let mut expanded = crate::hash::blake2b(bytes_concat(tag0.as_slice(), seed.as_bytes().as_slice()).as_slice());
        let b0 = expanded[0];
        expanded[0] = b0 & 248;
        let b31 = expanded[31];
        expanded[31] = (b31 & 63) | 64;
        proof {
            assert(((b31 & 63) | 64) < 0x80) by (bit_vector);
        }
        let mut tag1: Vec<u8> = Vec::new();
        tag1.push(1u8);
        proof {
            assert(tag1@ =~= seq![1u8]);
        }
        let cc_full = crate::hash::blake2b(bytes_concat(tag1.as_slice(), seed.as_bytes().as_slice()).as_slice());
        let cc = bytes_range(cc_full.as_slice(), 0, 32);
        let r = SecretKey { key: ed25519_extended::SecretKey::from_bytes(expanded), chain_code: cc };
        proof {
            assert(r.secret_view() =~= Self::of_seed_spec(seed@));
        }
        r
    }

    /// The extended secret key inside this key.
    pub fn key(&self) -> (r: &ed25519_extended::SecretKey)
        requires
            self.wf(),
        ensures
            r.secret_view() == self.secret_view().subrange(0, 64),
    {
        proof {
            assert(self.key.secret_view() =~= self.secret_view().subrange(0, 64));
        }
        &self.key
    }

    /// The chain code of this key.
    pub fn chain_code(&self) -> (r: &Vec<u8>)
        requires
            self.wf(),
        ensures
            r@ == self.secret_view().subrange(64, self.secret_view().len() as int),
    {
        proof {
            assert(self.chain_code@ =~= self.secret_view().subrange(
                64,
                self.secret_view().len() as int,
            ));
        }
        &self.chain_code
    }

    /// The public half of this key: public point and the same chain code.
    pub fn public_key(&self) -> (r: PublicKeyHd)
        requires
            self.wf(),
        ensures
            r.wf(),
            r@ == curve_ops::mul_base_of(self.secret_view().subrange(0, 32)) + self.secret_view().subrange(64, 96),
    {
        let scalar = bytes_range(self.key.as_bytes().as_slice(), 0, 32);
        let point = curve_ops::scalar_mul_base(scalar.as_slice());
        let cc = bytes_range(self.chain_code.as_slice(), 0, 32);
        proof {
            assert(self.chain_code@.subrange(0, 32) =~= self.secret_view().subrange(64, 96));
            assert(self.key.secret_view().subrange(0, 32) =~= self.secret_view().subrange(0, 32));
        }
        PublicKeyHd::from_parts(PublicKey::new(point), cc)
    }

    /// Deterministically derive the child secret key under `path`.
    pub fn derive(&self, path: &[u8]) -> (r: SecretKey)
        requires
            self.wf(),
        ensures
            r.wf(),
            r.secret_view() == spec_derive_secret(self.secret_view(), path@),
    {
        let scalar = bytes_range(self.key.as_bytes().as_slice(), 0, 32);
        proof {
            assert(scalar@ =~= self.secret_view().subrange(0, 32));
            assert(self.chain_code@ =~= self.secret_view().subrange(64, 96));
        }
        let public = curve_ops::scalar_mul_base(scalar.as_slice());
        let z = hmac_blake2b(self.chain_code.as_slice(), derivation_input(1u8, public.as_slice(), path).as_slice());
        let delta = curve_ops::scalar_reduce_wide(delta_wide(z.as_slice()).as_slice());
        let mut sum = add_le32(scalar.as_slice(), delta.as_slice());
        let mut pad = bytes_zero(31);
        sum.append(&mut pad);
        let child_scalar = curve_ops::scalar_reduce_wide(sum.as_slice());
        let child_prefix = bytes_range(z.as_slice(), 32, 64);
        let child_key = bytes_concat(child_scalar.as_slice(), child_prefix.as_slice());
        proof {
            assert(child_key@[31] == child_scalar@[31]);
        }
        let cc_digest = hmac_blake2b(self.chain_code.as_slice(), derivation_input(2u8, public.as_slice(), path).as_slice());
        let child_cc = bytes_range(cc_digest.as_slice(), 0, 32);
        let r = SecretKey {
            key: ed25519_extended::SecretKey::from_bytes(child_key),
            chain_code: child_cc,
        };
        proof {
            assert(r.secret_view() =~= spec_derive_secret(self.secret_view(), path@));
        }
        r
    }

    /// Diffie-Hellman exchange with a peer's public key.
    pub fn exchange(&self, remote: &PublicKey) -> (r: SharedSecret)
        requires
            self.wf(),
            remote.wf(),
        ensures
            r.wf(),
            r@ == ed25519_extended::spec_scalar_dh(self.secret_view().subrange(0, 32), remote@),
    {
        proof {
            assert(self.key.secret_view().subrange(0, 32) =~= self.secret_view().subrange(0, 32));
        }
        self.key.exchange(remote)
    }
}

impl Dh for SecretKey {
    closed spec fn wf(&self) -> bool {
        self.key.wf() && self.chain_code@.len() == 32
    }

    open spec fn of_seed_spec(seed: Seq<u8>) -> Seq<u8> {
        ed25519_extended::spec_clamp(crate::hash::blake2b_of(seq![0u8] + seed)) + crate::hash::blake2b_of(
            seq![1u8] + seed,
        ).subrange(0, 32)
    }

    closed spec fn secret_view(&self) -> Seq<u8> {
        self.key.secret_view() + self.chain_code@
    }

    open spec fn public_of(sv: Seq<u8>) -> Seq<u8> {
        curve_ops::mul_base_of(sv.subrange(0, 32))
    }

    open spec fn dh_of(sv: Seq<u8>, remote: Seq<u8>) -> Seq<u8> {
        ed25519_extended::spec_scalar_dh(sv.subrange(0, 32), remote)
    }

    open spec fn name_spec() -> Seq<char> {
        "ed25519"@
    }

    fn name() -> (r: &'static str) {
        "ed25519"
    }

    fn generate(seed: &Seed) -> (r: Self) {
        SecretKey::new(seed)
    }

    fn public(&self) -> (r: PublicKey) {
        proof {
            assert(self.key.secret_view().subrange(0, 32) =~= self.secret_view().subrange(0, 32));
        }
        self.key.public_key()
    }

    fn dh(&self, remote: &PublicKey) -> (r: SharedSecret) {
        self.exchange(remote)
    }

    fn dh_checked(&self, remote: &PublicKey) -> (r: Option<SharedSecret>) {
        let s = self.exchange(remote);
        if s.is_degenerate() {
            None
        } else {
            Some(s)
        }
    }
}

/// Public key of the hierarchical-deterministic kind: a public point and
/// the chain code, enough to derive child public keys without any secret.
#[derive(Clone, Debug)]
pub struct PublicKeyHd {
    key: PublicKey,
    chain_code: Vec<u8>,
}

impl View for PublicKeyHd {
    type V = Seq<u8>;

    closed spec fn view(&self) -> Seq<u8> {
        self.key@ + self.chain_code@
    }
}

impl PublicKeyHd {
    /// A well-formed value holds a 32-byte point and a 32-byte chain code.
    pub closed spec fn wf(&self) -> bool {
        self.key@.len() == 32 && self.chain_code@.len() == 32
    }

    /// Assemble from a public point and a chain code.
    pub fn from_parts(key: PublicKey, chain_code: Vec<u8>) -> (r: PublicKeyHd)
        requires
            key.wf(),
            chain_code@.len() == 32,
        ensures
            r@ == key@ + chain_code@,
            r.wf(),
    {
        PublicKeyHd { key, chain_code }
    }

    /// The public point.
    pub fn key(&self) -> (r: &PublicKey)
        requires
            self.wf(),
        ensures
            r@ == self@.subrange(0, 32),
    {
        proof {
            assert(self.key@ =~= self@.subrange(0, 32));
        }
        &self.key
    }

    /// The chain code.
    pub fn chain_code(&self) -> (r: &Vec<u8>)
        requires
            self.wf(),
        ensures
            r@ == self@.subrange(32, 64),
    {
        proof {
            assert(self.chain_code@ =~= self@.subrange(32, 64));
        }
        &self.chain_code
    }

    /// Deterministically derive the child public key under `path`: the
    /// public counterpart of the child of the matching secret key. Fails
    /// when the stored point is not a valid encoding or the child would be
    /// the degenerate identity point.
    pub fn derive(&self, path: &[u8]) -> (r: Option<PublicKeyHd>)
        requires
            self.wf(),
        ensures
            r is Some <==> curve_ops::is_point_of(self@.subrange(0, 32)) && spec_child_public(
                self@.subrange(0, 32),
                spec_z(self@.subrange(0, 32), self@.subrange(32, 64), path@),
            ) != spec_identity_point(),
            r is Some ==> r.unwrap()@ == spec_child_public(
                self@.subrange(0, 32),
                spec_z(self@.subrange(0, 32), self@.subrange(32, 64), path@),
            ) + spec_child_cc(self@.subrange(0, 32), self@.subrange(32, 64), path@),
            r is Some ==> r.unwrap().wf(),
    {
        proof {
            assert(self.key@ =~= self@.subrange(0, 32));
            assert(self.chain_code@ =~= self@.subrange(32, 64));
        }
        let z = hmac_blake2b(
            self.chain_code.as_slice(),
            derivation_input(1u8, self.key.as_bytes().as_slice(), path).as_slice(),
        );
        let delta = curve_ops::scalar_reduce_wide(delta_wide(z.as_slice()).as_slice());
        let offset_point = curve_ops::scalar_mul_base(delta.as_slice());
        let child_point = match curve_ops::point_add(
            self.key.as_bytes().as_slice(),
            offset_point.as_slice(),
        ) {
            Some(p) => p,
            None => {
                return None;
            },
        };
        if is_identity(child_point.as_slice()) {
            return None;
        }
        let cc_digest = hmac_blake2b(
            self.chain_code.as_slice(),
            derivation_input(2u8, self.key.as_bytes().as_slice(), path).as_slice(),
        );
        let child_cc = bytes_range(cc_digest.as_slice(), 0, 32);
        Some(PublicKeyHd::from_parts(PublicKey::new(child_point), child_cc))
    }
}

} // verus!
