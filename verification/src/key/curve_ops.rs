//! Trusted wrappers around the outside elliptic-curve primitive library.
//! Every result is named as an opaque function of the arguments; the
//! derivation, handshake and transport logic above is verified against
//! these names.

use vstd::prelude::*;

verus! {

pub uninterp spec fn x25519_of(scalar: Seq<u8>, point: Seq<u8>) -> Seq<u8>;

/// Relies on cryptoxide's `curve25519::curve25519` (X25519 scalar
/// multiplication over the Montgomery curve): 32 bytes, a function of the
/// two arguments alone.
#[verifier::external_body]
pub(crate) fn x25519(scalar: &[u8], point: &[u8]) -> (r: Vec<u8>)
    requires
        scalar@.len() == 32,
        point@.len() == 32,
    ensures
        r@ == x25519_of(scalar@, point@),
        r@.len() == 32,
{
    let s: [u8; 32] = scalar.try_into().unwrap();
    let p: [u8; 32] = point.try_into().unwrap();
    cryptoxide::curve25519::curve25519(&s, &p).to_vec()
}

pub uninterp spec fn x25519_base_of(scalar: Seq<u8>) -> Seq<u8>;

/// Relies on cryptoxide's `curve25519::curve25519_base` (X25519
/// multiplication of the base point): 32 bytes, a function of the scalar
/// alone.
#[verifier::external_body]
pub(crate) fn x25519_base(scalar: &[u8]) -> (r: Vec<u8>)
    requires
        scalar@.len() == 32,
    ensures
        r@ == x25519_base_of(scalar@),
        r@.len() == 32,
{
    let s: [u8; 32] = scalar.try_into().unwrap();
    cryptoxide::curve25519::curve25519_base(&s).to_vec()
}

pub uninterp spec fn ed25519_public_of(seed: Seq<u8>) -> Seq<u8>;

/// Relies on cryptoxide's `ed25519::keypair`: the 32-byte public half is a
/// function of the 32-byte secret seed alone.
#[verifier::external_body]
pub(crate) fn ed25519_public(seed: &[u8]) -> (r: Vec<u8>)
    requires
        seed@.len() == 32,
    ensures
        r@ == ed25519_public_of(seed@),
        r@.len() == 32,
{
    let s: [u8; 32] = seed.try_into().unwrap();
    let (_, public) = cryptoxide::ed25519::keypair(&s);
    public.to_vec()
}

pub uninterp spec fn ed25519_exchange_of(seed: Seq<u8>, point: Seq<u8>) -> Seq<u8>;

/// Relies on cryptoxide's `ed25519::exchange` (Diffie-Hellman between an
/// Ed25519 secret seed and an Ed25519 public key): 32 bytes, a function of
/// the two arguments alone.
#[verifier::external_body]
pub(crate) fn ed25519_exchange(seed: &[u8], point: &[u8]) -> (r: Vec<u8>)
    requires
        seed@.len() == 32,
        point@.len() == 32,
    ensures
        r@ == ed25519_exchange_of(seed@, point@),
        r@.len() == 32,
{
    let s: [u8; 32] = seed.try_into().unwrap();
    let p: [u8; 32] = point.try_into().unwrap();
    cryptoxide::ed25519::exchange(&p, &s).to_vec()
}

/// Whether 32 bytes are a valid compressed encoding of a curve point, as
/// cryptoxide's `curve25519::Ge::from_bytes` accepts it.
pub uninterp spec fn is_point_of(point: Seq<u8>) -> bool;

pub uninterp spec fn mul_base_of(scalar: Seq<u8>) -> Seq<u8>;

/// Relies on cryptoxide's `curve25519::Ge::scalarmult_base` (Edwards
/// multiplication of the base point): the compressed result is 32 bytes, a
/// function of the scalar alone, and is itself a valid point encoding. The
/// function demands a scalar whose top byte is at most 0x80; clamped and
/// reduced scalars satisfy this, and larger values can make it panic.
#[verifier::external_body]
pub(crate) fn scalar_mul_base(scalar: &[u8]) -> (r: Vec<u8>)
    requires
        scalar@.len() == 32,
        scalar@[31] < 0x80,
    ensures
        r@ == mul_base_of(scalar@),
        r@.len() == 32,
        is_point_of(r@),
{
    let s: [u8; 32] = scalar.try_into().unwrap();
    let sc = cryptoxide::curve25519::Scalar::from_bytes(&s);
    cryptoxide::curve25519::Ge::scalarmult_base(&sc).to_bytes().to_vec()
}

pub uninterp spec fn mul_point_of(scalar: Seq<u8>, point: Seq<u8>) -> Seq<u8>;

/// Relies on cryptoxide's `curve25519::GePartial::double_scalarmult_vartime`
/// with a zero base-point coefficient, i.e. Edwards multiplication of an
/// arbitrary point; and on `Ge::from_bytes`, which accepts exactly the valid
/// point encodings and decompresses to the negated point, which the flipped
/// sign bit compensates. The compressed result is 32 bytes, a function of
/// the two arguments alone.
#[verifier::external_body]
pub(crate) fn scalar_mul_point(scalar: &[u8], point: &[u8]) -> (r: Option<Vec<u8>>)
    requires
        scalar@.len() == 32,
        point@.len() == 32,
    ensures
        r is Some <==> is_point_of(point@),
        r is Some ==> r.unwrap()@ == mul_point_of(scalar@, point@),
        r is Some ==> r.unwrap()@.len() == 32,
{
    let s: [u8; 32] = scalar.try_into().unwrap();
    let mut p: [u8; 32] = point.try_into().unwrap();
    p[31] ^= 0x80;
    let sc = cryptoxide::curve25519::Scalar::from_bytes(&s);
    match cryptoxide::curve25519::Ge::from_bytes(&p) {
        None => None,
        Some(ge) => Some(
            cryptoxide::curve25519::GePartial::double_scalarmult_vartime(
                &sc,
                ge,
                &cryptoxide::curve25519::Scalar::ZERO,
            ).to_bytes().to_vec(),
        ),
    }
}

pub uninterp spec fn point_add_of(a: Seq<u8>, b: Seq<u8>) -> Seq<u8>;

/// Both byte strings are valid compressed point encodings.
pub open spec fn are_points(a: Seq<u8>, b: Seq<u8>) -> bool {
    is_point_of(a) && is_point_of(b)
}

/// Relies on cryptoxide's Edwards point addition (`&Ge + &GeCached`) and on
/// `Ge::from_bytes`, which accepts exactly the valid point encodings and
/// decompresses to the negated point, which the flipped sign bits
/// compensate. The compressed sum is 32 bytes, a function of the two
/// arguments alone, and is itself a valid point encoding.
#[verifier::external_body]
pub(crate) fn point_add(a: &[u8], b: &[u8]) -> (r: Option<Vec<u8>>)
    requires
        a@.len() == 32,
        b@.len() == 32,
    ensures
        r is Some <==> are_points(a@, b@),
        r is Some ==> r.unwrap()@ == point_add_of(a@, b@),
        r is Some ==> r.unwrap()@.len() == 32,
        r is Some ==> is_point_of(r.unwrap()@),
{
    let mut aa: [u8; 32] = a.try_into().unwrap();
    let mut bb: [u8; 32] = b.try_into().unwrap();
    aa[31] ^= 0x80;
    bb[31] ^= 0x80;
    let pa = cryptoxide::curve25519::Ge::from_bytes(&aa)?;
    let pb = cryptoxide::curve25519::Ge::from_bytes(&bb)?;
    Some((&pa + &pb.to_cached()).to_full().to_bytes().to_vec())
}

pub uninterp spec fn reduce_wide_of(wide: Seq<u8>) -> Seq<u8>;

/// Relies on cryptoxide's `curve25519::Scalar::reduce_from_wide_bytes`
/// (reduction of a 64-byte little-endian value modulo the group order):
/// 32 bytes, a function of the argument alone. The group order is below
/// two to the 253, so the top byte of the canonical result is small.
#[verifier::external_body]
pub(crate) fn scalar_reduce_wide(wide: &[u8]) -> (r: Vec<u8>)
    requires
        wide@.len() == 64,
    ensures
        r@ == reduce_wide_of(wide@),
        r@.len() == 32,
        r@[31] < 0x80,
{
    let w: [u8; 64] = wide.try_into().unwrap();
    cryptoxide::curve25519::Scalar::reduce_from_wide_bytes(&w).to_bytes().to_vec()
}

} // verus!
