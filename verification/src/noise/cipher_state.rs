//! One authenticated-encryption instance: a 32-byte key and a counter
//! nonce. Encrypting or decrypting consumes the current nonce; rekeying
//! replaces the key by a one-way derivation of itself and resets the nonce,
//! so a (key, nonce) pair is never reused on two plaintexts.

use crate::util::{bytes_range, bytes_zero};
use vstd::prelude::*;

verus! {

/// Failure of a single cipher operation. Never retried internally.
#[derive(Clone, Copy, Debug, PartialEq, Eq, Structural)]
pub enum CipherStateError {
    /// The nonce counter is exhausted; the state can encrypt or decrypt
    /// nothing more.
    NonceExhausted,
    /// The output buffer is too short for the result.
    NotEnoughOutput,
    /// The input is too short to even hold an authentication tag.
    MalformedInput,
    /// The authentication tag does not match: the message is corrupted,
    /// replayed or encrypted under other key material.
    AuthenticationFailed,
}

pub uninterp spec fn aead_enc_of(key: Seq<u8>, nonce: u64, ad: Seq<u8>, pt: Seq<u8>) -> Seq<u8>;

/// Relies on cryptoxide's `chacha20poly1305::ChaCha20Poly1305`: encryption
/// under the 96-bit nonce built from four zero bytes and the little-endian
/// counter. The ciphertext-with-tag is a function of key, counter,
/// associated data and plaintext alone, and is 16 bytes longer than the
/// plaintext. Decryption of an authenticated cipher is a function, so no
/// second plaintext gives the same bytes under the same key, counter and
/// associated data.
#[verifier::external_body]
pub(crate) fn aead_encrypt(key: &[u8], nonce: u64, ad: &[u8], pt: &[u8]) -> (r: Vec<u8>)
    requires
        key@.len() == 32,
    ensures
        r@ == aead_enc_of(key@, nonce, ad@, pt@),
        r@.len() == pt@.len() + 16,
        forall|other: Seq<u8>| aead_enc_of(key@, nonce, ad@, other) == r@ ==> other == pt@,
{
    let k: [u8; 32] = key.try_into().unwrap();
    let mut n = [0u8; 12];
    n[4..].copy_from_slice(&nonce.to_le_bytes());
    let mut context = cryptoxide::chacha20poly1305::ChaCha20Poly1305::new(&k, &n, ad);
    let mut out = vec![0u8; pt.len()];
    let mut tag = [0u8; 16];
    context.encrypt(pt, &mut out, &mut tag);
    out.extend_from_slice(&tag);
    out
}

/// Relies on cryptoxide's `chacha20poly1305::ChaCha20Poly1305`: decryption
/// with tag verification succeeds exactly on the bytes that encryption
/// under the same key, counter and associated data produces, and then
/// returns that plaintext — the only one whose encryption gives those
/// bytes, since decryption of an authenticated cipher is a function.
#[verifier::external_body]
pub(crate) fn aead_decrypt(key: &[u8], nonce: u64, ad: &[u8], input: &[u8]) -> (r: Option<
    Vec<u8>,
>)
    requires
        key@.len() == 32,
        input@.len() >= 16,
    ensures
        r is Some ==> input@ == aead_enc_of(key@, nonce, ad@, r.unwrap()@),
        r is Some ==> r.unwrap()@.len() + 16 == input@.len(),
        r is Some ==> forall|pt: Seq<u8>|
            #[trigger] aead_enc_of(key@, nonce, ad@, pt) == input@ ==> pt == r.unwrap()@,
        r is None ==> forall|pt: Seq<u8>| input@ != aead_enc_of(key@, nonce, ad@, pt),
{
    let k: [u8; 32] = key.try_into().unwrap();
    let mut n = [0u8; 12];
    n[4..].copy_from_slice(&nonce.to_le_bytes());
    let mut context = cryptoxide::chacha20poly1305::ChaCha20Poly1305::new(&k, &n, ad);
    let ct = &input[..input.len() - 16];
    let tag = &input[input.len() - 16..];
    let mut out = vec![0u8; ct.len()];
    if context.decrypt(ct, &mut out, tag) {
        Some(out)
    } else {
        None
    }
}

/// The one-way derivation a rekey applies to the cipher key: the first 32
/// bytes of encrypting 32 zero bytes under the final counter value.
pub open spec fn spec_rekey(key: Seq<u8>) -> Seq<u8> {
    aead_enc_of(key, u64::MAX, Seq::<u8>::empty(), Seq::new(32, |i: int| 0u8)).subrange(0, 32)
}

/// One nonce-incrementing authenticated-encryption instance.
pub struct CipherState {
    key: Vec<u8>,
    nonce: u64,
}

impl CipherState {
    /// Number of bytes of the authentication tag appended to a ciphertext.
    pub const TAG_LEN: usize = 16;

    /// The current symmetric key.
    pub closed spec fn key_view(&self) -> Seq<u8> {
        self.key@
    }

    /// The current nonce counter.
    pub closed spec fn nonce_view(&self) -> u64 {
        self.nonce
    }

    /// A well-formed state holds a 32-byte key.
    pub open spec fn wf(&self) -> bool {
        self.key_view().len() == 32
    }

    /// A brand-new state over a fresh key, with the nonce at its initial
    /// value: the only way a nonce counter is ever reset.
    pub fn new(key: Vec<u8>) -> (r: CipherState)
        requires
            key@.len() == 32,
        ensures
            r.wf(),
            r.key_view() == key@,
            r.nonce_view() == 0,
    {
        CipherState { key, nonce: 0 }
    }

    /// The current nonce counter, which counts the operations performed
    /// under the current key.
    pub fn nonce(&self) -> (r: u64)
        ensures
            r == self.nonce_view(),
    {
        self.nonce
    }

    /// Encrypt `input` with associated data `ad`, writing ciphertext and
    /// tag over the first `input.len() + 16` bytes of `output` and leaving
    /// the rest untouched. Consumes the current nonce.
    pub fn encrypt_with_ad(&mut self, ad: &[u8], input: &[u8], output: &mut Vec<u8>) -> (r: Result<
        (),
        CipherStateError,
    >)
        requires
            old(self).wf(),
        ensures
            final(self).wf(),
            r is Ok ==> old(self).nonce_view() < u64::MAX && old(output)@.len() >= input@.len()
                + 16,
            r is Ok ==> final(self).key_view() == old(self).key_view() && final(self).nonce_view()
                == old(self).nonce_view() + 1,
            r is Ok ==> final(output)@ == aead_enc_of(
                old(self).key_view(),
                old(self).nonce_view(),
                ad@,
                input@,
            ) + old(output)@.skip(input@.len() + 16 as int),
            r is Ok ==> final(output)@.len() == old(output)@.len(),
            r is Err ==> *final(self) == *old(self) && final(output)@ == old(output)@,
            r == Err::<(), CipherStateError>(CipherStateError::NonceExhausted) <==> old(
                self,
            ).nonce_view() == u64::MAX,
            old(self).nonce_view() < u64::MAX ==> (r == Err::<(), CipherStateError>(
                CipherStateError::NotEnoughOutput,
            ) <==> old(output)@.len() < input@.len() + 16),
            old(self).nonce_view() < u64::MAX && old(output)@.len() >= input@.len() + 16 ==> r
                is Ok,
            r is Ok ==> forall|other: Seq<u8>|
                #[trigger] aead_enc_of(
                    old(self).key_view(),
                    old(self).nonce_view(),
                    ad@,
                    other,
                ) == aead_enc_of(old(self).key_view(), old(self).nonce_view(), ad@, input@)
                    ==> other == input@,
    {
        if self.nonce == u64::MAX {
            return Err(CipherStateError::NonceExhausted);
        }
        if output.len() < 16 || output.len() - 16 < input.len() {
            return Err(CipherStateError::NotEnoughOutput);
        }
        let ct = aead_encrypt(self.key.as_slice(), self.nonce, ad, input);
        let mut r = ct;
        let mut i: usize = input.len() + 16;
        while i < output.len()
            invariant
                input@.len() + 16 <= i <= output@.len(),
                r@ == aead_enc_of(old(self).key_view(), old(self).nonce_view(), ad@, input@)
                    + output@.subrange(input@.len() + 16 as int, i as int),
            decreases output@.len() - i,
        {
            let b = output[i];
            r.push(b);
            i += 1;
            proof {
                assert(r@ =~= aead_enc_of(old(self).key_view(), old(self).nonce_view(), ad@, input@)
                    + output@.subrange(input@.len() + 16 as int, i as int));
            }
        }
        proof {
            assert(output@.subrange(input@.len() + 16 as int, output@.len() as int) =~= output@.skip(
                input@.len() + 16 as int,
            ));
        }
        *output = r;
        self.nonce = self.nonce + 1;
        Ok(())
    }

    /// Verify and decrypt `input` (ciphertext then tag) with associated
    /// data `ad`, writing the plaintext over the first `input.len() - 16`
    /// bytes of `output` and leaving the rest untouched. Consumes the
    /// current nonce only on success.
    pub fn decrypt_with_ad(&mut self, ad: &[u8], input: &[u8], output: &mut Vec<u8>) -> (r: Result<
        (),
        CipherStateError,
    >)
        requires
            old(self).wf(),
        ensures
            final(self).wf(),
            r is Ok ==> old(self).nonce_view() < u64::MAX && input@.len() >= 16 && old(
                output,
            )@.len() >= input@.len() - 16,
            r is Ok ==> final(self).key_view() == old(self).key_view() && final(self).nonce_view()
                == old(self).nonce_view() + 1,
            r is Ok ==> input@ == aead_enc_of(
                old(self).key_view(),
                old(self).nonce_view(),
                ad@,
                final(output)@.subrange(0, input@.len() - 16),
            ) && final(output)@.skip(input@.len() - 16) == old(output)@.skip(input@.len() - 16)
                && final(output)@.len() == old(output)@.len(),
            r is Err ==> *final(self) == *old(self) && final(output)@ == old(output)@,
            r == Err::<(), CipherStateError>(CipherStateError::NonceExhausted) <==> old(
                self,
            ).nonce_view() == u64::MAX,
            old(self).nonce_view() < u64::MAX ==> (r == Err::<(), CipherStateError>(
                CipherStateError::MalformedInput,
            ) <==> input@.len() < 16),
            old(self).nonce_view() < u64::MAX && input@.len() >= 16 ==> (r == Err::<(
            ), CipherStateError>(CipherStateError::NotEnoughOutput) <==> old(output)@.len()
                < input@.len() - 16),
            r == Err::<(), CipherStateError>(CipherStateError::AuthenticationFailed)
                ==> (forall|pt: Seq<u8>|
                input@ != aead_enc_of(old(self).key_view(), old(self).nonce_view(), ad@, pt)),
            old(self).nonce_view() < u64::MAX && input@.len() >= 16 && old(output)@.len()
                >= input@.len() - 16 && (exists|pt: Seq<u8>|
                pt.len() == input@.len() - 16 && input@ == #[trigger] aead_enc_of(
                    old(self).key_view(),
                    old(self).nonce_view(),
                    ad@,
                    pt,
                )) ==> r is Ok,
    {
        if self.nonce == u64::MAX {
            return Err(CipherStateError::NonceExhausted);
        }
        if input.len() < 16 {
            return Err(CipherStateError::MalformedInput);
        }
        if output.len() < input.len() - 16 {
            return Err(CipherStateError::NotEnoughOutput);
        }
        let pt = match aead_decrypt(self.key.as_slice(), self.nonce, ad, input) {
            Some(pt) => pt,
            None => {
                return Err(CipherStateError::AuthenticationFailed);
            },
        };
        let ghost pt0 = pt@;
        let mut r = pt;
        let mut i: usize = input.len() - 16;
        while i < output.len()
            invariant
                input@.len() >= 16,
                pt0.len() == input@.len() - 16,
                input@.len() - 16 <= i <= output@.len(),
                r@ == pt0 + output@.subrange(input@.len() - 16, i as int),
            decreases output@.len() - i,
        {
            let b = output[i];
            r.push(b);
            i += 1;
            proof {
                assert(r@ =~= pt0 + output@.subrange(input@.len() - 16, i as int));
            }
        }
        proof {
            assert(output@.subrange(input@.len() - 16, output@.len() as int) =~= output@.skip(
                input@.len() - 16,
            ));
            assert(r@.subrange(0, input@.len() - 16) =~= pt0);
            assert(r@.skip(input@.len() - 16) =~= output@.skip(input@.len() - 16));
        }
        *output = r;
        self.nonce = self.nonce + 1;
        Ok(())
    }

    /// Replace the key by its one-way derivation and reset the nonce: the
    /// nonce is scoped to the current key, so the pair never repeats.
    pub fn rekey(&mut self)
        requires
            old(self).wf(),
        ensures
            final(self).wf(),
            final(self).key_view() == spec_rekey(old(self).key_view()),
            final(self).nonce_view() == 0,
    {
        let empty: Vec<u8> = Vec::new();
        let zeros = bytes_zero(32);
        let stream = aead_encrypt(self.key.as_slice(), u64::MAX, empty.as_slice(), zeros.as_slice());
        proof {
            assert(zeros@ =~= Seq::new(32, |i: int| 0u8));
            assert(empty@ =~= Seq::<u8>::empty());
        }
        self.key = bytes_range(stream.as_slice(), 0, 32);
        self.nonce = 0;
    }
}

} // verus!
