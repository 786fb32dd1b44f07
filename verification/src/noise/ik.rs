//! The two-message IK handshake: the initiator already knows the
//! responder's static public key. Message one carries the initiator's
//! ephemeral key and its encrypted static key; message two carries the
//! responder's ephemeral key. Four Diffie-Hellman exchanges feed a running
//! key-derivation chain, every public value and ciphertext feeds a running
//! transcript hash, and success yields a [`TransportState`] per party: two
//! fresh cipher streams, the transcript hash as session identifier, and
//! the authenticated remote static key.

use crate::hash::{blake2b, blake2b_of, hkdf2, spec_hkdf1, spec_hkdf2, HandshakeHash};
use crate::key::ed25519::PublicKey;
use crate::key::{Dh, Seed, SharedSecret};
use crate::noise::cipher_state::{aead_enc_of, aead_decrypt, aead_encrypt, CipherState};
use crate::noise::transport_state::TransportState;
use crate::util::{bytes_concat, bytes_range, bytes_zero};
use vstd::prelude::*;

verus! {

/// Failure of a handshake step: terminal, never retried; the handshake
/// must be restarted from scratch with fresh ephemeral keys.
#[derive(Clone, Copy, Debug, PartialEq, Eq, Structural)]
pub enum HandshakeError {
    /// A wire message has the wrong length for its position in the pattern.
    MalformedMessage,
    /// A Diffie-Hellman exchange produced the degenerate shared secret, so
    /// the peer supplied a low-order or invalid public key.
    KeyExchange,
    /// Decryption of a handshake payload failed authentication: a wrong,
    /// corrupted or replayed message, or a mismatched identity.
    Authentication,
}

/// The tag of the protocol: pattern, curve, cipher and hash choice.
pub open spec fn spec_protocol_name() -> Seq<u8> {
    seq![
        78u8, 111u8, 105u8, 115u8, 101u8, 95u8, 73u8, 75u8, 95u8, 50u8, 53u8, 53u8, 49u8, 57u8,
        95u8, 67u8, 104u8, 97u8, 67u8, 104u8, 97u8, 80u8, 111u8, 108u8, 121u8, 95u8, 66u8, 76u8,
        65u8, 75u8, 69u8, 50u8, 98u8,
    ]
}

fn protocol_name() -> (r: Vec<u8>)
    ensures
        r@ == spec_protocol_name(),
{
    let r: Vec<u8> = vec![
        78u8, 111u8, 105u8, 115u8, 101u8, 95u8, 73u8, 75u8, 95u8, 50u8, 53u8, 53u8, 49u8, 57u8,
        95u8, 67u8, 104u8, 97u8, 67u8, 104u8, 97u8, 80u8, 111u8, 108u8, 121u8, 95u8, 66u8, 76u8,
        65u8, 75u8, 69u8, 50u8, 98u8,
    ];
    proof {
        assert(r@ =~= spec_protocol_name());
    }
    r
}

/// Start of the transcript hash and of the derivation chain: the protocol
/// tag, which is shorter than one digest, zero-padded to digest length.
pub open spec fn spec_h0() -> Seq<u8> {
    spec_protocol_name() + Seq::new(31, |i: int| 0u8)
}

/// Transcript hash after mixing the prologue.
pub open spec fn spec_h1(prologue: Seq<u8>) -> Seq<u8> {
    blake2b_of(spec_h0() + prologue)
}

/// Transcript hash after mixing the responder's static public key, known
/// to both parties before the first message.
pub open spec fn spec_h2(prologue: Seq<u8>, rs: Seq<u8>) -> Seq<u8> {
    blake2b_of(spec_h1(prologue) + rs)
}

/// Transcript hash after the first message: its ephemeral key and its two
/// ciphertexts, mixed in order.
pub open spec fn spec_transcript1(prologue: Seq<u8>, rs: Seq<u8>, msg1: Seq<u8>) -> Seq<u8> {
    let h3 = blake2b_of(spec_h2(prologue, rs) + msg1.subrange(0, 32));
    let h4 = blake2b_of(h3 + msg1.subrange(32, 80));
    blake2b_of(h4 + msg1.skip(80))
}

/// Transcript hash of the finished handshake: a function of the prologue,
/// the responder's static public key and the two wire messages alone, so
/// two honest parties that exchanged the same bytes compute the same value.
pub open spec fn spec_transcript(
    prologue: Seq<u8>,
    rs: Seq<u8>,
    msg1: Seq<u8>,
    msg2: Seq<u8>,
) -> Seq<u8> {
    let h6 = blake2b_of(spec_transcript1(prologue, rs, msg1) + msg2.subrange(0, 32));
    blake2b_of(h6 + msg2.skip(32))
}

/// Derivation chain after the first exchange.
pub open spec fn spec_ck1(dh1: Seq<u8>) -> Seq<u8> {
    spec_hkdf1(spec_h0(), dh1)
}

/// Message key for the encrypted static key of message one.
pub open spec fn spec_k1(dh1: Seq<u8>) -> Seq<u8> {
    spec_hkdf2(spec_h0(), dh1).subrange(0, 32)
}

/// Derivation chain after the second exchange.
pub open spec fn spec_ck2(dh1: Seq<u8>, dh2: Seq<u8>) -> Seq<u8> {
    spec_hkdf1(spec_ck1(dh1), dh2)
}

/// Message key for the payload of message one.
pub open spec fn spec_k2(dh1: Seq<u8>, dh2: Seq<u8>) -> Seq<u8> {
    spec_hkdf2(spec_ck1(dh1), dh2).subrange(0, 32)
}

/// Derivation chain after the third exchange.
pub open spec fn spec_ck3(dh1: Seq<u8>, dh2: Seq<u8>, dh3: Seq<u8>) -> Seq<u8> {
    spec_hkdf1(spec_ck2(dh1, dh2), dh3)
}

/// Derivation chain after the fourth exchange.
pub open spec fn spec_ck4(dh1: Seq<u8>, dh2: Seq<u8>, dh3: Seq<u8>, dh4: Seq<u8>) -> Seq<u8> {
    spec_hkdf1(spec_ck3(dh1, dh2, dh3), dh4)
}

/// Message key for the payload of message two.
pub open spec fn spec_k4(dh1: Seq<u8>, dh2: Seq<u8>, dh3: Seq<u8>, dh4: Seq<u8>) -> Seq<u8> {
    spec_hkdf2(spec_ck3(dh1, dh2, dh3), dh4).subrange(0, 32)
}

/// Transport key of the initiator-to-responder direction.
pub open spec fn spec_key_ab(dh1: Seq<u8>, dh2: Seq<u8>, dh3: Seq<u8>, dh4: Seq<u8>) -> Seq<u8> {
    spec_hkdf1(spec_ck4(dh1, dh2, dh3, dh4), Seq::<u8>::empty()).subrange(0, 32)
}

/// Transport key of the responder-to-initiator direction.
pub open spec fn spec_key_ba(dh1: Seq<u8>, dh2: Seq<u8>, dh3: Seq<u8>, dh4: Seq<u8>) -> Seq<u8> {
    spec_hkdf2(spec_ck4(dh1, dh2, dh3, dh4), Seq::<u8>::empty()).subrange(0, 32)
}

/// The first wire message, as a function of the prologue, the responder's
/// static public key and the two secret inputs of the initiator.
pub open spec fn spec_msg1<K: Dh>(
    prologue: Seq<u8>,
    rs: Seq<u8>,
    e_sv: Seq<u8>,
    s_sv: Seq<u8>,
) -> Seq<u8> {
    let epub = K::public_of(e_sv);
    let dh1 = K::dh_of(e_sv, rs);
    let dh2 = K::dh_of(s_sv, rs);
    let h3 = blake2b_of(spec_h2(prologue, rs) + epub);
    let c1 = aead_enc_of(spec_k1(dh1), 0, h3, K::public_of(s_sv));
    let h4 = blake2b_of(h3 + c1);
    let c2 = aead_enc_of(spec_k2(dh1, dh2), 0, h4, Seq::<u8>::empty());
    epub + c1 + c2
}

/// A candidate initiator identity explains the first message: it is the
/// plaintext of the encrypted static key, its exchange with the
/// responder's static key is non-degenerate, the payload ciphertext
/// matches the keys derived from both exchanges, and the responder's
/// ephemeral exchange with it is non-degenerate.
pub open spec fn spec_initiator_ok<K: Dh>(
    prologue: Seq<u8>,
    s_sv: Seq<u8>,
    e2_sv: Seq<u8>,
    msg1: Seq<u8>,
    ipub: Seq<u8>,
) -> bool {
    let rs = K::public_of(s_sv);
    let epub = msg1.subrange(0, 32);
    let dh1 = K::dh_of(s_sv, epub);
    let dh2 = K::dh_of(s_sv, ipub);
    let h3 = blake2b_of(spec_h2(prologue, rs) + epub);
    let h4 = blake2b_of(h3 + msg1.subrange(32, 80));
    &&& ipub.len() == 32
    &&& msg1.subrange(32, 80) == aead_enc_of(spec_k1(dh1), 0, h3, ipub)
    &&& dh2 != SharedSecret::spec_zero()
    &&& msg1.skip(80) == aead_enc_of(spec_k2(dh1, dh2), 0, h4, Seq::<u8>::empty())
    &&& K::dh_of(e2_sv, ipub) != SharedSecret::spec_zero()
}

/// The responder accepts a first message: it has the right length, the
/// exchanges with the initiator's ephemeral key are non-degenerate, and
/// some initiator identity explains both of its ciphertexts.
pub open spec fn spec_msg1_accepted<K: Dh>(
    prologue: Seq<u8>,
    s_sv: Seq<u8>,
    e2_sv: Seq<u8>,
    msg1: Seq<u8>,
) -> bool {
    &&& msg1.len() == 96
    &&& K::dh_of(s_sv, msg1.subrange(0, 32)) != SharedSecret::spec_zero()
    &&& K::dh_of(e2_sv, msg1.subrange(0, 32)) != SharedSecret::spec_zero()
    &&& exists|ipub: Seq<u8>|
        #[trigger] spec_initiator_ok::<K>(prologue, s_sv, e2_sv, msg1, ipub)
}

/// The running symmetric state of a handshake: transcript hash,
/// derivation-chain value, and the current message key with its counter.
struct SymmetricState {
    h: Vec<u8>,
    ck: Vec<u8>,
    key: Vec<u8>,
    nonce: u64,
}

impl SymmetricState {
    spec fn wf(&self) -> bool {
        self.h@.len() == 64 && self.ck@.len() == 64 && self.key@.len() == 32
    }

    fn initialize(prologue: &[u8]) -> (r: SymmetricState)
        ensures
            r.wf(),
            r.h@ == spec_h1(prologue@),
            r.ck@ == spec_h0(),
            r.nonce == 0,
    {
        let mut h0 = protocol_name();
        let mut pad = bytes_zero(31);
        h0.append(&mut pad);
        proof {
            assert(h0@ =~= spec_h0());
        }
        let ck = bytes_range(h0.as_slice(), 0, 64);
        let h = blake2b(bytes_concat(h0.as_slice(), prologue).as_slice());
        proof {
            assert(ck@ =~= spec_h0());
        }
        SymmetricState { h, ck, key: bytes_zero(32), nonce: 0 }
    }

    fn mix_hash(&mut self, data: &[u8])
        requires
            old(self).wf(),
        ensures
            final(self).wf(),
            final(self).h@ == blake2b_of(old(self).h@ + data@),
            final(self).ck@ == old(self).ck@,
            final(self).key@ == old(self).key@,
            final(self).nonce == old(self).nonce,
    {
        self.h = blake2b(bytes_concat(self.h.as_slice(), data).as_slice());
    }

    fn mix_key(&mut self, ikm: &[u8])
        requires
            old(self).wf(),
        ensures
            final(self).wf(),
            final(self).h@ == old(self).h@,
            final(self).ck@ == spec_hkdf1(old(self).ck@, ikm@),
            final(self).key@ == spec_hkdf2(old(self).ck@, ikm@).subrange(0, 32),
            final(self).nonce == 0,
    {
        let (ck, okm) = hkdf2(self.ck.as_slice(), ikm);
        self.ck = ck;
        self.key = bytes_range(okm.as_slice(), 0, 32);
        self.nonce = 0;
    }

    fn encrypt_and_hash(&mut self, pt: &[u8]) -> (r: Vec<u8>)
        requires
            old(self).wf(),
            old(self).nonce < u64::MAX,
        ensures
            final(self).wf(),
            r@ == aead_enc_of(old(self).key@, old(self).nonce, old(self).h@, pt@),
            r@.len() == pt@.len() + 16,
            final(self).h@ == blake2b_of(old(self).h@ + r@),
            final(self).ck@ == old(self).ck@,
            final(self).key@ == old(self).key@,
            final(self).nonce == old(self).nonce + 1,
    {
        let ct = aead_encrypt(self.key.as_slice(), self.nonce, self.h.as_slice(), pt);
        self.h = blake2b(bytes_concat(self.h.as_slice(), ct.as_slice()).as_slice());
        self.nonce = self.nonce + 1;
        ct
    }

    fn decrypt_and_hash(&mut self, ct: &[u8]) -> (r: Option<Vec<u8>>)
        requires
            old(self).wf(),
            old(self).nonce < u64::MAX,
            ct@.len() >= 16,
        ensures
            final(self).wf(),
            r is Some ==> ct@ == aead_enc_of(
                old(self).key@,
                old(self).nonce,
                old(self).h@,
                r.unwrap()@,
            ),
            r is Some ==> r.unwrap()@.len() + 16 == ct@.len(),
            r is Some ==> final(self).h@ == blake2b_of(old(self).h@ + ct@) && final(self).nonce
                == old(self).nonce + 1,
            r is Some ==> forall|pt: Seq<u8>|
                #[trigger] aead_enc_of(old(self).key@, old(self).nonce, old(self).h@, pt) == ct@
                    ==> pt == r.unwrap()@,
            r is None ==> *final(self) == *old(self),
            r is None ==> forall|pt: Seq<u8>|
                ct@ != aead_enc_of(old(self).key@, old(self).nonce, old(self).h@, pt),
            final(self).ck@ == old(self).ck@,
            final(self).key@ == old(self).key@,
    {
        match aead_decrypt(self.key.as_slice(), self.nonce, self.h.as_slice(), ct) {
            Some(pt) => {
                self.h = blake2b(bytes_concat(self.h.as_slice(), ct).as_slice());
                self.nonce = self.nonce + 1;
                Some(pt)
            },
            None => None,
        }
    }

    fn split_keys(&self) -> (r: (Vec<u8>, Vec<u8>))
        requires
            self.wf(),
        ensures
            r.0@ == spec_hkdf1(self.ck@, Seq::<u8>::empty()).subrange(0, 32),
            r.1@ == spec_hkdf2(self.ck@, Seq::<u8>::empty()).subrange(0, 32),
            r.0@.len() == 32,
            r.1@.len() == 32,
    {
        let empty: Vec<u8> = Vec::new();
        proof {
            assert(empty@ =~= Seq::<u8>::empty());
        }
        let (t1, t2) = hkdf2(self.ck.as_slice(), empty.as_slice());
        (bytes_range(t1.as_slice(), 0, 32), bytes_range(t2.as_slice(), 0, 32))
    }
}

/// A fresh handshake over a prologue both parties agree on out of band.
/// The initiator advances it with [`Ik::initiate`]; the responder consumes
/// it with [`Ik::respond`].
pub struct Ik {
    st: SymmetricState,
    prologue: Ghost<Seq<u8>>,
}

/// The initiator after sending the first message, waiting for the
/// responder's reply. Consumed by [`WaitB::receive`]: a handshake state is
/// single-use, so stale state can never be advanced twice.
pub struct WaitB<K: Dh> {
    e: K,
    st: SymmetricState,
    rs: PublicKey,
    prologue: Ghost<Seq<u8>>,
    msg1: Ghost<Seq<u8>>,
    s_sv: Ghost<Seq<u8>>,
}

impl Ik {
    /// The prologue this handshake was started over.
    pub closed spec fn prologue_view(&self) -> Seq<u8> {
        self.prologue@
    }

    /// Well-formedness: the symmetric state matches the prologue.
    pub closed spec fn wf(&self) -> bool {
        &&& self.st.wf()
        &&& self.st.h@ == spec_h1(self.prologue@)
        &&& self.st.ck@ == spec_h0()
        &&& self.st.nonce == 0
    }

    /// Start a handshake over the given prologue.
    pub fn new(prologue: &[u8]) -> (r: Ik)
        ensures
            r.wf(),
            r.prologue_view() == prologue@,
    {
        Ik { st: SymmetricState::initialize(prologue), prologue: Ghost(prologue@) }
    }

    /// Initiate the handshake: generate an ephemeral key from the seed,
    /// perform the two exchanges of the first message, and produce the
    /// wire bytes of that message together with the state awaiting the
    /// reply. Fails exactly when one of the exchanges with the responder's
    /// static key degenerates.
    pub fn initiate<K: Dh>(self, k: &K, rs: PublicKey, seed: &Seed) -> (r: Result<
        (WaitB<K>, Vec<u8>),
        HandshakeError,
    >)
        requires
            self.wf(),
            k.wf(),
            rs.wf(),
            seed.wf(),
        ensures
            ({
                let e_sv = K::of_seed_spec(seed@);
                let dh1 = K::dh_of(e_sv, rs@);
                let dh2 = K::dh_of(k.secret_view(), rs@);
                &&& (r is Ok <==> dh1 != SharedSecret::spec_zero() && dh2
                    != SharedSecret::spec_zero())
                &&& r is Err ==> r == Err::<(WaitB<K>, Vec<u8>), HandshakeError>(
                    HandshakeError::KeyExchange,
                )
                &&& r is Ok ==> {
                    let w = r.unwrap().0;
                    let m = r.unwrap().1;
                    &&& m@ == spec_msg1::<K>(self.prologue_view(), rs@, e_sv, k.secret_view())
                    &&& m@.len() == 96
                    &&& w.wf()
                    &&& w.eph_sv() == e_sv
                    &&& w.s_sv_view() == k.secret_view()
                    &&& w.rs_view() == rs@
                    &&& w.prologue_view() == self.prologue_view()
                    &&& w.msg1_view() == m@
                }
            }),
    {
        let mut st = self.st;
        st.mix_hash(rs.as_bytes().as_slice());
        let e = K::generate(seed);
        let epub = e.public();
        st.mix_hash(epub.as_bytes().as_slice());
        let es = e.dh(&rs);
        if es.is_degenerate() {
            return Err(HandshakeError::KeyExchange);
        }
        st.mix_key(es.as_bytes().as_slice());
        let spub = k.public();
        let c1 = st.encrypt_and_hash(spub.as_bytes().as_slice());
        let ss = k.dh(&rs);
        if ss.is_degenerate() {
            return Err(HandshakeError::KeyExchange);
        }
        st.mix_key(ss.as_bytes().as_slice());
        let empty: Vec<u8> = Vec::new();
        proof {
            assert(empty@ =~= Seq::<u8>::empty());
        }
        let c2 = st.encrypt_and_hash(empty.as_slice());
        let msg1 = bytes_concat(
            bytes_concat(epub.as_bytes().as_slice(), c1.as_slice()).as_slice(),
            c2.as_slice(),
        );
        proof {
            assert(msg1@ =~= spec_msg1::<K>(self.prologue_view(), rs@, K::of_seed_spec(seed@), k.secret_view()));
            assert(msg1@.subrange(0, 32) =~= epub@);
            assert(msg1@.subrange(32, 80) =~= c1@);
            assert(msg1@.skip(80) =~= c2@);
        }
        let w = WaitB {
            e,
            st,
            rs,
            prologue: self.prologue,
            msg1: Ghost(msg1@),
            s_sv: Ghost(k.secret_view()),
        };
        Ok((w, msg1))
    }
}

impl<K: Dh> WaitB<K> {
    /// The secret material of the ephemeral key generated at initiation.
    pub closed spec fn eph_sv(&self) -> Seq<u8> {
        self.e.secret_view()
    }

    /// The secret material of the initiator's static key.
    pub closed spec fn s_sv_view(&self) -> Seq<u8> {
        self.s_sv@
    }

    /// The responder's static public key the handshake was started with.
    pub closed spec fn rs_view(&self) -> Seq<u8> {
        self.rs@
    }

    /// The prologue this handshake runs over.
    pub closed spec fn prologue_view(&self) -> Seq<u8> {
        self.prologue@
    }

    /// The wire bytes of the first message.
    pub closed spec fn msg1_view(&self) -> Seq<u8> {
        self.msg1@
    }

    /// Well-formedness: the symmetric state matches the recorded first
    /// message and the two exchanges already performed.
    pub closed spec fn wf(&self) -> bool {
        &&& self.e.wf()
        &&& self.st.wf()
        &&& self.rs.wf()
        &&& self.st.h@ == spec_transcript1(self.prologue@, self.rs@, self.msg1@)
        &&& self.st.ck@ == spec_ck2(
            K::dh_of(self.e.secret_view(), self.rs@),
            K::dh_of(self.s_sv@, self.rs@),
        )
    }

    /// Receive the responder's reply, consuming the state: perform the two
    /// remaining exchanges, authenticate the payload, and split the chain
    /// into the finished session. Succeeds exactly when the reply has the
    /// right length, neither exchange with the responder's ephemeral key
    /// degenerates, and the payload authenticates under the derived key.
    pub fn receive(self, k: &K, msg2: &[u8]) -> (r: Result<TransportState, HandshakeError>)
        requires
            self.wf(),
            k.wf(),
            k.secret_view() == self.s_sv_view(),
        ensures
            ({
                let re = msg2@.subrange(0, 32);
                let dh1 = K::dh_of(self.eph_sv(), self.rs_view());
                let dh2 = K::dh_of(self.s_sv_view(), self.rs_view());
                let dh3 = K::dh_of(self.eph_sv(), re);
                let dh4 = K::dh_of(self.s_sv_view(), re);
                let h6 = blake2b_of(
                    spec_transcript1(self.prologue_view(), self.rs_view(), self.msg1_view()) + re,
                );
                &&& (r is Ok <==> msg2@.len() == 48 && dh3 != SharedSecret::spec_zero() && dh4
                    != SharedSecret::spec_zero() && msg2@.skip(32) == aead_enc_of(
                    spec_k4(dh1, dh2, dh3, dh4),
                    0,
                    h6,
                    Seq::<u8>::empty(),
                ))
                &&& (r == Err::<TransportState, HandshakeError>(HandshakeError::MalformedMessage)
                    <==> msg2@.len() != 48)
                &&& msg2@.len() == 48 ==> (r == Err::<TransportState, HandshakeError>(
                    HandshakeError::KeyExchange,
                ) <==> dh3 == SharedSecret::spec_zero() || dh4 == SharedSecret::spec_zero())
                &&& r is Ok ==> {
                    let t = r.unwrap();
                    &&& t.wf()
                    &&& t.session_view() == spec_transcript(
                        self.prologue_view(),
                        self.rs_view(),
                        self.msg1_view(),
                        msg2@,
                    )
                    &&& t.remote_id_view() == self.rs_view()
                    &&& t.local_cipher().key_view() == spec_key_ab(dh1, dh2, dh3, dh4)
                    &&& t.local_cipher().nonce_view() == 0
                    &&& t.remote_cipher().key_view() == spec_key_ba(dh1, dh2, dh3, dh4)
                    &&& t.remote_cipher().nonce_view() == 0
                }
            }),
    {
        if msg2.len() != 48 {
            return Err(HandshakeError::MalformedMessage);
        }
        let mut st = self.st;
        let re_bytes = bytes_range(msg2, 0, 32);
        let re = PublicKey::new(re_bytes);
        st.mix_hash(re.as_bytes().as_slice());
        let ee = self.e.dh(&re);
        let se = k.dh(&re);
        if ee.is_degenerate() || se.is_degenerate() {
            return Err(HandshakeError::KeyExchange);
        }
        st.mix_key(ee.as_bytes().as_slice());
        st.mix_key(se.as_bytes().as_slice());
        let c3 = bytes_range(msg2, 32, 48);
        let pt = match st.decrypt_and_hash(c3.as_slice()) {
            Some(pt) => pt,
            None => {
                return Err(HandshakeError::Authentication);
            },
        };
        proof {
            assert(pt@ =~= Seq::<u8>::empty());
            assert(msg2@.skip(32) =~= c3@);
            assert(st.h@ == spec_transcript(
                self.prologue_view(),
                self.rs_view(),
                self.msg1_view(),
                msg2@,
            ));
        }
        let (kab, kba) = st.split_keys();
        let local = CipherState::new(kab);
        let remote = CipherState::new(kba);
        let hash = HandshakeHash::new(bytes_range(st.h.as_slice(), 0, 64));
        proof {
            assert(st.h@.subrange(0, 64) =~= st.h@);
        }
        Ok(TransportState::new(hash, local, remote, self.rs))
    }
}

impl Ik {
    /// Respond to a first message, consuming the state: authenticate the
    /// initiator's encrypted static key and payload, generate an ephemeral
    /// key from the seed, perform the remaining exchanges, and produce the
    /// reply together with the finished session, whose remote identity is
    /// the initiator's now-verified static public key. Succeeds exactly
    /// when the message has the right length, no exchange degenerates, and
    /// some initiator identity explains both of its ciphertexts.
    pub fn respond<K: Dh>(self, k: &K, seed: &Seed, msg1: &[u8]) -> (r: Result<
        (TransportState, Vec<u8>),
        HandshakeError,
    >)
        requires
            self.wf(),
            k.wf(),
            seed.wf(),
        ensures
            ({
                let rs = K::public_of(k.secret_view());
                let epub = msg1@.subrange(0, 32);
                let dh1 = K::dh_of(k.secret_view(), epub);
                let e2 = K::of_seed_spec(seed@);
                &&& (r is Ok <==> spec_msg1_accepted::<K>(
                    self.prologue_view(),
                    k.secret_view(),
                    e2,
                    msg1@,
                ))
                &&& (r == Err::<(TransportState, Vec<u8>), HandshakeError>(
                    HandshakeError::MalformedMessage,
                ) <==> msg1@.len() != 96)
                &&& msg1@.len() == 96 && dh1 == SharedSecret::spec_zero() ==> r == Err::<(
                    TransportState,
                    Vec<u8>,
                ), HandshakeError>(HandshakeError::KeyExchange)
                &&& r is Ok ==> {
                    let t = r.unwrap().0;
                    let m2 = r.unwrap().1;
                    let ipub = t.remote_id_view();
                    let dh2 = K::dh_of(k.secret_view(), ipub);
                    let dh3 = K::dh_of(e2, epub);
                    let dh4 = K::dh_of(e2, ipub);
                    let h3 = blake2b_of(spec_h2(self.prologue_view(), rs) + epub);
                    let h6 = blake2b_of(
                        spec_transcript1(self.prologue_view(), rs, msg1@) + K::public_of(e2),
                    );
                    &&& msg1@.len() == 96
                    &&& ipub.len() == 32
                    &&& msg1@.subrange(32, 80) == aead_enc_of(spec_k1(dh1), 0, h3, ipub)
                    &&& msg1@.skip(80) == aead_enc_of(
                        spec_k2(dh1, dh2),
                        0,
                        blake2b_of(h3 + msg1@.subrange(32, 80)),
                        Seq::<u8>::empty(),
                    )
                    &&& dh1 != SharedSecret::spec_zero() && dh2 != SharedSecret::spec_zero()
                        && dh3 != SharedSecret::spec_zero() && dh4 != SharedSecret::spec_zero()
                    &&& m2@ == K::public_of(e2) + aead_enc_of(
                        spec_k4(dh1, dh2, dh3, dh4),
                        0,
                        h6,
                        Seq::<u8>::empty(),
                    )
                    &&& m2@.len() == 48
                    &&& t.wf()
                    &&& t.session_view() == spec_transcript(self.prologue_view(), rs, msg1@, m2@)
                    &&& t.local_cipher().key_view() == spec_key_ba(dh1, dh2, dh3, dh4)
                    &&& t.local_cipher().nonce_view() == 0
                    &&& t.remote_cipher().key_view() == spec_key_ab(dh1, dh2, dh3, dh4)
                    &&& t.remote_cipher().nonce_view() == 0
                }
            }),
    {
        let ghost p_v = self.prologue@;
        let ghost s_sv = k.secret_view();
        let ghost e2_sv = K::of_seed_spec(seed@);
        let ghost dh1_v = K::dh_of(s_sv, msg1@.subrange(0, 32));
        let ghost h3_v = blake2b_of(spec_h2(p_v, K::public_of(s_sv)) + msg1@.subrange(0, 32));
        let mut st = self.st;
        let rs = k.public();
        st.mix_hash(rs.as_bytes().as_slice());
        if msg1.len() != 96 {
            return Err(HandshakeError::MalformedMessage);
        }
        let epub = PublicKey::new(bytes_range(msg1, 0, 32));
        st.mix_hash(epub.as_bytes().as_slice());
        let es = k.dh(&epub);
        if es.is_degenerate() {
            return Err(HandshakeError::KeyExchange);
        }
        st.mix_key(es.as_bytes().as_slice());
        let c1 = bytes_range(msg1, 32, 80);
        proof {
            assert(st.key@ == spec_k1(dh1_v));
            assert(st.h@ == h3_v);
        }
        let ipub_bytes = match st.decrypt_and_hash(c1.as_slice()) {
            Some(pt) => pt,
            None => {
                return Err(HandshakeError::Authentication);
            },
        };
        let ipub = PublicKey::new(ipub_bytes);
        let ss = k.dh(&ipub);
        if ss.is_degenerate() {
            return Err(HandshakeError::KeyExchange);
        }
        st.mix_key(ss.as_bytes().as_slice());
        let c2 = bytes_range(msg1, 80, 96);
        proof {
            assert(st.key@ == spec_k2(dh1_v, K::dh_of(s_sv, ipub@)));
            assert(st.h@ == blake2b_of(h3_v + msg1@.subrange(32, 80)));
            assert(msg1@.skip(80) =~= c2@);
        }
        match st.decrypt_and_hash(c2.as_slice()) {
            Some(payload) => {
                proof {
                    assert(payload@ =~= Seq::<u8>::empty());
                }
            },
            None => {
                return Err(HandshakeError::Authentication);
            },
        }
        let e2 = K::generate(seed);
        let e2pub = e2.public();
        st.mix_hash(e2pub.as_bytes().as_slice());
        let ee = e2.dh(&epub);
        let se = e2.dh(&ipub);
        if ee.is_degenerate() || se.is_degenerate() {
            return Err(HandshakeError::KeyExchange);
        }
        proof {
            assert(spec_initiator_ok::<K>(p_v, s_sv, e2_sv, msg1@, ipub@));
        }
        st.mix_key(ee.as_bytes().as_slice());
        st.mix_key(se.as_bytes().as_slice());
        let empty: Vec<u8> = Vec::new();
        proof {
            assert(empty@ =~= Seq::<u8>::empty());
            assert(msg1@.subrange(0, 32) =~= epub@);
            assert(msg1@.subrange(32, 80) =~= c1@);
            assert(msg1@.skip(80) =~= c2@);
        }
        let c3 = st.encrypt_and_hash(empty.as_slice());
        let msg2 = bytes_concat(e2pub.as_bytes().as_slice(), c3.as_slice());
        proof {
            assert(msg2@.subrange(0, 32) =~= e2pub@);
            assert(msg2@.skip(32) =~= c3@);
        }
        let (kab, kba) = st.split_keys();
        let local = CipherState::new(kba);
        let remote = CipherState::new(kab);
        let hash = HandshakeHash::new(bytes_range(st.h.as_slice(), 0, 64));
        proof {
            assert(st.h@.subrange(0, 64) =~= st.h@);
        }
        Ok((TransportState::new(hash, local, remote, ipub), msg2))
    }
}

/// For a finished handshake between two honest parties — the same
/// prologue, the responder's static public key, and the two wire messages
/// actually exchanged — both resulting sessions report the same session
/// identifier: each side's contract gives its identifier as the transcript
/// of those shared values, which depends on no secret. Their message
/// counters start in lockstep at zero on both sides.
pub proof fn lemma_session_agreement(
    prologue: Seq<u8>,
    rs: Seq<u8>,
    msg1: Seq<u8>,
    msg2: Seq<u8>,
    initiator_session: Seq<u8>,
    responder_session: Seq<u8>,
)
    requires
        initiator_session == spec_transcript(prologue, rs, msg1, msg2),
        responder_session == spec_transcript(prologue, rs, msg1, msg2),
    ensures
        initiator_session == responder_session,
{
}

} // verus!
