//! BLAKE2b-512 digests, the HMAC construction over them, and the
//! two-output key-derivation chain used by the handshake.
//!
//! The digest itself comes from an outside primitive library; everything
//! layered on it (HMAC padding, the derivation chain, the transcript-hash
//! value) is verified code.

use crate::util::bytes_concat;
use vstd::prelude::*;

verus! {

pub uninterp spec fn blake2b_of(data: Seq<u8>) -> Seq<u8>;

/// Relies on cryptoxide's `ed25519::blake2b512` (BLAKE2b with a 512-bit
/// digest): the digest is 64 bytes long and depends on the input bytes alone.
#[verifier::external_body]
pub(crate) fn blake2b(data: &[u8]) -> (r: Vec<u8>)
    ensures
        r@ == blake2b_of(data@),
        r@.len() == 64,
{
    cryptoxide::ed25519::blake2b512(&[data]).to_vec()
}

/// The HMAC key padded to one block and xored with the given pad byte.
pub open spec fn spec_xor_pad(key: Seq<u8>, pad: u8) -> Seq<u8> {
    Seq::new(
        128,
        |i: int|
            if i < key.len() {
                key[i] ^ pad
            } else {
                pad
            },
    )
}

/// HMAC-BLAKE2b of a message under a key of at most one block.
pub open spec fn spec_hmac(key: Seq<u8>, data: Seq<u8>) -> Seq<u8>
    recommends
        key.len() <= 128,
{
    blake2b_of(spec_xor_pad(key, 0x5c) + blake2b_of(spec_xor_pad(key, 0x36) + data))
}

fn xor_pad(key: &[u8], pad: u8) -> (r: Vec<u8>)
    requires
        key@.len() <= 128,
    ensures
        r@ == spec_xor_pad(key@, pad),
{
    let mut r: Vec<u8> = Vec::new();
    let mut i: usize = 0;
    while i < 128
        invariant
            i <= 128,
            key@.len() <= 128,
            r@.len() == i,
            forall|j: int|
                0 <= j < i ==> r@[j] == (if j < key@.len() {
                    key@[j] ^ pad
                } else {
                    pad
                }),
        decreases 128 - i,
    {
        if i < key.len() {
            r.push(key[i] ^ pad);
        } else {
            r.push(pad);
        }
        i += 1;
    }
    proof {
        assert(r@ =~= spec_xor_pad(key@, pad));
    }
    r
}

/// HMAC-BLAKE2b, written out over the digest primitive.
pub(crate) fn hmac_blake2b(key: &[u8], data: &[u8]) -> (r: Vec<u8>)
    requires
        key@.len() <= 128,
    ensures
        r@ == spec_hmac(key@, data@),
        r@.len() == 64,
{
    let ipad = xor_pad(key, 0x36);
    let opad = xor_pad(key, 0x5c);
    let inner_input = bytes_concat(ipad.as_slice(), data);
    let inner = blake2b(inner_input.as_slice());
    let outer_input = bytes_concat(opad.as_slice(), inner.as_slice());
    blake2b(outer_input.as_slice())
}

/// First output of the two-output derivation chain seeded by `ck` and `ikm`.
pub open spec fn spec_hkdf1(ck: Seq<u8>, ikm: Seq<u8>) -> Seq<u8> {
    spec_hmac(spec_hmac(ck, ikm), seq![1u8])
}

/// Second output of the two-output derivation chain seeded by `ck` and `ikm`.
pub open spec fn spec_hkdf2(ck: Seq<u8>, ikm: Seq<u8>) -> Seq<u8> {
    spec_hmac(spec_hmac(ck, ikm), spec_hkdf1(ck, ikm) + seq![2u8])
}

/// Two-output HKDF over HMAC-BLAKE2b, as the handshake consumes it.
pub(crate) fn hkdf2(ck: &[u8], ikm: &[u8]) -> (r: (Vec<u8>, Vec<u8>))
    requires
        ck@.len() <= 128,
    ensures
        r.0@ == spec_hkdf1(ck@, ikm@),
        r.1@ == spec_hkdf2(ck@, ikm@),
        r.0@.len() == 64,
        r.1@.len() == 64,
{
    let temp = hmac_blake2b(ck, ikm);
    let mut one: Vec<u8> = Vec::new();
    one.push(1u8);
    let out1 = hmac_blake2b(temp.as_slice(), one.as_slice());
    proof {
        assert(one@ =~= seq![1u8]);
    }
    let mut in2 = crate::util::bytes_range(out1.as_slice(), 0, out1.len());
    in2.push(2u8);
    proof {
        assert(in2@ =~= spec_hkdf1(ck@, ikm@) + seq![2u8]);
    }
    let out2 = hmac_blake2b(temp.as_slice(), in2.as_slice());
    (out1, out2)
}

/// Transcript hash of a finished handshake, exposed to callers as the
/// session identifier. Safe to compare; not a secret.
#[derive(Debug)]
pub struct HandshakeHash {
    bytes: Vec<u8>,
}

impl View for HandshakeHash {
    type V = Seq<u8>;

    closed spec fn view(&self) -> Seq<u8> {
        self.bytes@
    }
}

impl HandshakeHash {
    /// A well-formed value holds exactly one digest.
    pub open spec fn wf(&self) -> bool {
        self@.len() == 64
    }

    /// Wrap a digest value.
    pub fn new(bytes: Vec<u8>) -> (r: HandshakeHash)
        requires
            bytes@.len() == 64,
        ensures
            r@ == bytes@,
            r.wf(),
    {
        HandshakeHash { bytes }
    }

    /// The raw digest bytes.
    pub fn as_bytes(&self) -> (r: &Vec<u8>)
        ensures
            r@ == self@,
    {
        &self.bytes
    }
}

impl Clone for HandshakeHash {
    /// An equal copy, so that both halves of a split session can keep the
    /// session identifier.
    fn clone(&self) -> (r: Self)
        ensures
            r@ == self@,
    {
        HandshakeHash { bytes: crate::util::bytes_range(self.bytes.as_slice(), 0, self.bytes.len()) }
    }
}

impl PartialEq for HandshakeHash {
    fn eq(&self, other: &HandshakeHash) -> (r: bool) {
        let mut i: usize = 0;
        if self.bytes.len() != other.bytes.len() {
            return false;
        }
        while i < self.bytes.len()
            invariant
                i <= self.bytes@.len(),
                self.bytes@.len() == other.bytes@.len(),
                forall|j: int| 0 <= j < i ==> self.bytes@[j] == other.bytes@[j],
            decreases self.bytes@.len() - i,
        {
            if self.bytes[i] != other.bytes[i] {
                return false;
            }
            i += 1;
        }
        proof {
            assert(self.bytes@ =~= other.bytes@);
        }
        true
    }
}

impl Eq for HandshakeHash {

}

impl vstd::std_specs::cmp::PartialEqSpecImpl for HandshakeHash {
    open spec fn obeys_eq_spec() -> bool {
        true
    }

    open spec fn eq_spec(&self, other: &HandshakeHash) -> bool {
        self@ == other@
    }
}

} // verus!
