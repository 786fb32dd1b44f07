//! Transport session between two participants after a finished handshake.
//! The two directions are independent: sending uses one cipher stream,
//! receiving the other, and every successful operation immediately rekeys
//! the stream involved, for forward secrecy per message.

use crate::hash::HandshakeHash;
use crate::key::ed25519::PublicKey;
use crate::noise::cipher_state::{
    aead_enc_of, spec_rekey, CipherState, CipherStateError,
};
use vstd::prelude::*;

verus! {

/// The outcome a successful send step pins down: ciphertext and tag over
/// the buffer prefix, the rest untouched, and the stream rekeyed with its
/// nonce back at the initial value.
pub open spec fn spec_send_ok(
    c0: CipherState,
    input: Seq<u8>,
    out0: Seq<u8>,
    c1: CipherState,
    out1: Seq<u8>,
) -> bool {
    &&& c1.key_view() == spec_rekey(c0.key_view())
    &&& c1.nonce_view() == 0
    &&& out1 == aead_enc_of(c0.key_view(), c0.nonce_view(), Seq::<u8>::empty(), input) + out0.skip(
        input.len() + 16 as int,
    )
}

/// A send step is owed success: the stream is alive and the buffer holds
/// the plaintext plus a tag.
pub open spec fn spec_sendable(c: CipherState, input: Seq<u8>, out: Seq<u8>) -> bool {
    &&& c.nonce_view() < u64::MAX
    &&& out.len() >= input.len() + 16
}

/// The outcome a successful receive step pins down: the buffer prefix is
/// the unique plaintext whose encryption under the stream's key and nonce
/// is the input, the rest untouched, and the stream rekeyed.
pub open spec fn spec_receive_ok(
    c0: CipherState,
    input: Seq<u8>,
    out0: Seq<u8>,
    c1: CipherState,
    out1: Seq<u8>,
) -> bool {
    &&& c1.key_view() == spec_rekey(c0.key_view())
    &&& c1.nonce_view() == 0
    &&& input == aead_enc_of(
        c0.key_view(),
        c0.nonce_view(),
        Seq::<u8>::empty(),
        out1.subrange(0, input.len() - 16),
    )
    &&& out1.len() == out0.len()
    &&& out1.skip(input.len() - 16) == out0.skip(input.len() - 16)
}

/// A receive step is owed success: the stream is alive, the buffer is big
/// enough, and the input is a genuine ciphertext for the stream's current
/// key and nonce.
pub open spec fn spec_receivable(c: CipherState, input: Seq<u8>, out: Seq<u8>) -> bool {
    &&& c.nonce_view() < u64::MAX
    &&& input.len() >= 16
    &&& out.len() >= input.len() - 16
    &&& exists|pt: Seq<u8>|
        pt.len() == input.len() - 16 && input == #[trigger] aead_enc_of(
            c.key_view(),
            c.nonce_view(),
            Seq::<u8>::empty(),
            pt,
        )
}

/// Transport session between two participants. The two directions are
/// decoupled, so messages can be sent independently of the messages
/// received. All messages are authenticated, and rekeying after each one
/// gives strong forward secrecy.
pub struct TransportState {
    handshake_hash: HandshakeHash,
    local: CipherState,
    remote: CipherState,
    remote_id: PublicKey,
}

/// The sending direction of a split session.
pub struct TransportSendHalf {
    handshake_hash: HandshakeHash,
    local: CipherState,
    remote_id: PublicKey,
}

/// The receiving direction of a split session.
pub struct TransportReceiveHalf {
    handshake_hash: HandshakeHash,
    remote: CipherState,
    remote_id: PublicKey,
}

impl TransportState {
    /// The session identifier value.
    pub closed spec fn session_view(&self) -> Seq<u8> {
        self.handshake_hash@
    }

    /// The cipher stream of the sending direction.
    pub closed spec fn local_cipher(&self) -> CipherState {
        self.local
    }

    /// The cipher stream of the receiving direction.
    pub closed spec fn remote_cipher(&self) -> CipherState {
        self.remote
    }

    /// The authenticated remote public key.
    pub closed spec fn remote_id_view(&self) -> Seq<u8> {
        self.remote_id@
    }

    /// Well-formedness of the whole session.
    pub open spec fn wf(&self) -> bool {
        &&& self.session_view().len() == 64
        &&& self.local_cipher().wf()
        &&& self.remote_cipher().wf()
        &&& self.remote_id_view().len() == 32
    }

    /// Assemble a session from a finished handshake: its transcript hash,
    /// one fresh cipher stream per direction, and the verified remote
    /// static public key. Only a completed handshake creates a session.
    pub(crate) fn new(
        handshake_hash: HandshakeHash,
        local: CipherState,
        remote: CipherState,
        remote_id: PublicKey,
    ) -> (r: TransportState)
        requires
            handshake_hash.wf(),
            local.wf(),
            remote.wf(),
            remote_id.wf(),
        ensures
            r.wf(),
            r.session_view() == handshake_hash@,
            r.local_cipher() == local,
            r.remote_cipher() == remote,
            r.remote_id_view() == remote_id@,
    {
        TransportState { handshake_hash, local, remote, remote_id }
    }

    /// Split the session into a sending half and a receiving half with no
    /// remaining shared state, so two independent actors can drive the two
    /// directions concurrently without coordination.
    pub fn split(self) -> (r: (TransportSendHalf, TransportReceiveHalf))
        requires
            self.wf(),
        ensures
            r.0.wf(),
            r.1.wf(),
            r.0.session_view() == self.session_view(),
            r.1.session_view() == self.session_view(),
            r.0.local_cipher() == self.local_cipher(),
            r.1.remote_cipher() == self.remote_cipher(),
            r.0.remote_id_view() == self.remote_id_view(),
            r.1.remote_id_view() == self.remote_id_view(),
    {
        let TransportState { handshake_hash, local, remote, remote_id } = self;
        let send = TransportSendHalf {
            handshake_hash: handshake_hash.clone(),
            local,
            remote_id: remote_id.clone(),
        };
        let receive = TransportReceiveHalf { handshake_hash, remote, remote_id };
        (send, receive)
    }

    /// Unique identifier of the session: the handshake transcript hash.
    pub fn noise_session(&self) -> (r: &HandshakeHash)
        ensures
            r@ == self.session_view(),
    {
        &self.handshake_hash
    }

    /// The remote's authenticated public identity.
    pub fn remote_public_identity(&self) -> (r: &PublicKey)
        ensures
            r@ == self.remote_id_view(),
    {
        &self.remote_id
    }

    /// Number of messages received from the remote peer under the current
    /// receiving key.
    pub fn count_received(&self) -> (r: u64)
        ensures
            r == self.remote_cipher().nonce_view(),
    {
        self.remote.nonce()
    }

    /// Number of messages sent to the remote peer under the current
    /// sending key.
    pub fn count_sent(&self) -> (r: u64)
        ensures
            r == self.local_cipher().nonce_view(),
    {
        self.local.nonce()
    }

    /// Send a message: authenticated encryption of `input` over the first
    /// `input.len() + 16` bytes of `output`, immediately followed by a
    /// rekey of the sending stream.
    pub fn send(&mut self, input: &[u8], output: &mut Vec<u8>) -> (r: Result<
        (),
        CipherStateError,
    >)
        requires
            old(self).wf(),
        ensures
            final(self).wf(),
            r is Ok <==> spec_sendable(old(self).local_cipher(), input@, old(output)@),
            r is Ok ==> spec_send_ok(
                old(self).local_cipher(),
                input@,
                old(output)@,
                final(self).local_cipher(),
                final(output)@,
            ),
            r is Ok ==> final(output)@.len() == old(output)@.len(),
            r is Ok ==> forall|other: Seq<u8>|
                #[trigger] aead_enc_of(
                    old(self).local_cipher().key_view(),
                    old(self).local_cipher().nonce_view(),
                    Seq::<u8>::empty(),
                    other,
                ) == aead_enc_of(
                    old(self).local_cipher().key_view(),
                    old(self).local_cipher().nonce_view(),
                    Seq::<u8>::empty(),
                    input@,
                ) ==> other == input@,
            final(self).session_view() == old(self).session_view(),
            final(self).remote_cipher() == old(self).remote_cipher(),
            final(self).remote_id_view() == old(self).remote_id_view(),
            r is Err ==> *final(self) == *old(self) && final(output)@ == old(output)@,
            r == Err::<(), CipherStateError>(CipherStateError::NonceExhausted) <==> old(
                self,
            ).local_cipher().nonce_view() == u64::MAX,
            old(self).local_cipher().nonce_view() < u64::MAX ==> (r == Err::<(
            ), CipherStateError>(CipherStateError::NotEnoughOutput) <==> old(output)@.len()
                < input@.len() + 16),
    {
        let empty: Vec<u8> = Vec::new();
        proof {
            assert(empty@ =~= Seq::<u8>::empty());
        }
        match self.local.encrypt_with_ad(empty.as_slice(), input, output) {
            Ok(()) => {
                self.local.rekey();
                Ok(())
            },
            Err(e) => Err(e),
        }
    }

    /// Receive a message: verify and decrypt `input` (ciphertext then tag)
    /// into the first `input.len() - 16` bytes of `output`, immediately
    /// followed by a rekey of the receiving stream. Fails, changing
    /// nothing, on any tampering or key mismatch.
    pub fn receive(&mut self, input: &[u8], output: &mut Vec<u8>) -> (r: Result<
        (),
        CipherStateError,
    >)
        requires
            old(self).wf(),
        ensures
            final(self).wf(),
            r is Ok ==> spec_receive_ok(
                old(self).remote_cipher(),
                input@,
                old(output)@,
                final(self).remote_cipher(),
                final(output)@,
            ),
            spec_receivable(old(self).remote_cipher(), input@, old(output)@) ==> r is Ok,
            r is Ok ==> old(self).remote_cipher().nonce_view() < u64::MAX && input@.len() >= 16
                && old(output)@.len() >= input@.len() - 16,
            final(self).session_view() == old(self).session_view(),
            final(self).local_cipher() == old(self).local_cipher(),
            final(self).remote_id_view() == old(self).remote_id_view(),
            r is Err ==> *final(self) == *old(self) && final(output)@ == old(output)@,
            r == Err::<(), CipherStateError>(CipherStateError::AuthenticationFailed)
                ==> (forall|pt: Seq<u8>|
                input@ != aead_enc_of(
                    old(self).remote_cipher().key_view(),
                    old(self).remote_cipher().nonce_view(),
                    Seq::<u8>::empty(),
                    pt,
                )),
    {
        let empty: Vec<u8> = Vec::new();
        proof {
            assert(empty@ =~= Seq::<u8>::empty());
        }
        match self.remote.decrypt_with_ad(empty.as_slice(), input, output) {
            Ok(()) => {
                self.remote.rekey();
                Ok(())
            },
            Err(e) => Err(e),
        }
    }
}

impl TransportSendHalf {
    /// The session identifier value.
    pub closed spec fn session_view(&self) -> Seq<u8> {
        self.handshake_hash@
    }

    /// The cipher stream of the sending direction.
    pub closed spec fn local_cipher(&self) -> CipherState {
        self.local
    }

    /// The authenticated remote public key.
    pub closed spec fn remote_id_view(&self) -> Seq<u8> {
        self.remote_id@
    }

    /// Well-formedness of the sending half.
    pub open spec fn wf(&self) -> bool {
        &&& self.session_view().len() == 64
        &&& self.local_cipher().wf()
        &&& self.remote_id_view().len() == 32
    }

    /// Unique identifier of the session: the handshake transcript hash.
    pub fn noise_session(&self) -> (r: &HandshakeHash)
        ensures
            r@ == self.session_view(),
    {
        &self.handshake_hash
    }

    /// The remote's authenticated public identity.
    pub fn remote_public_identity(&self) -> (r: &PublicKey)
        ensures
            r@ == self.remote_id_view(),
    {
        &self.remote_id
    }

    /// Number of messages sent to the remote peer under the current
    /// sending key.
    pub fn count_sent(&self) -> (r: u64)
        ensures
            r == self.local_cipher().nonce_view(),
    {
        self.local.nonce()
    }

    /// Send a message, exactly as the unsplit session does: the step is a
    /// function of this half alone.
    pub fn send(&mut self, input: &[u8], output: &mut Vec<u8>) -> (r: Result<
        (),
        CipherStateError,
    >)
        requires
            old(self).wf(),
        ensures
            final(self).wf(),
            r is Ok <==> spec_sendable(old(self).local_cipher(), input@, old(output)@),
            r is Ok ==> spec_send_ok(
                old(self).local_cipher(),
                input@,
                old(output)@,
                final(self).local_cipher(),
                final(output)@,
            ),
            r is Ok ==> final(output)@.len() == old(output)@.len(),
            r is Ok ==> forall|other: Seq<u8>|
                #[trigger] aead_enc_of(
                    old(self).local_cipher().key_view(),
                    old(self).local_cipher().nonce_view(),
                    Seq::<u8>::empty(),
                    other,
                ) == aead_enc_of(
                    old(self).local_cipher().key_view(),
                    old(self).local_cipher().nonce_view(),
                    Seq::<u8>::empty(),
                    input@,
                ) ==> other == input@,
            final(self).session_view() == old(self).session_view(),
            final(self).remote_id_view() == old(self).remote_id_view(),
            r is Err ==> *final(self) == *old(self) && final(output)@ == old(output)@,
            r == Err::<(), CipherStateError>(CipherStateError::NonceExhausted) <==> old(
                self,
            ).local_cipher().nonce_view() == u64::MAX,
            old(self).local_cipher().nonce_view() < u64::MAX ==> (r == Err::<(
            ), CipherStateError>(CipherStateError::NotEnoughOutput) <==> old(output)@.len()
                < input@.len() + 16),
    {
        let empty: Vec<u8> = Vec::new();
        proof {
            assert(empty@ =~= Seq::<u8>::empty());
        }
        match self.local.encrypt_with_ad(empty.as_slice(), input, output) {
            Ok(()) => {
                self.local.rekey();
                Ok(())
            },
            Err(e) => Err(e),
        }
    }
}

impl TransportReceiveHalf {
    /// The session identifier value.
    pub closed spec fn session_view(&self) -> Seq<u8> {
        self.handshake_hash@
    }

    /// The cipher stream of the receiving direction.
    pub closed spec fn remote_cipher(&self) -> CipherState {
        self.remote
    }

    /// The authenticated remote public key.
    pub closed spec fn remote_id_view(&self) -> Seq<u8> {
        self.remote_id@
    }

    /// Well-formedness of the receiving half.
    pub open spec fn wf(&self) -> bool {
        &&& self.session_view().len() == 64
        &&& self.remote_cipher().wf()
        &&& self.remote_id_view().len() == 32
    }

    /// Unique identifier of the session: the handshake transcript hash.
    pub fn noise_session(&self) -> (r: &HandshakeHash)
        ensures
            r@ == self.session_view(),
    {
        &self.handshake_hash
    }

    /// The remote's authenticated public identity.
    pub fn remote_public_identity(&self) -> (r: &PublicKey)
        ensures
            r@ == self.remote_id_view(),
    {
        &self.remote_id
    }

    /// Number of messages received from the remote peer under the current
    /// receiving key.
    pub fn count_received(&self) -> (r: u64)
        ensures
            r == self.remote_cipher().nonce_view(),
    {
        self.remote.nonce()
    }

    /// Receive a message, exactly as the unsplit session does: the step is
    /// a function of this half alone.
    pub fn receive(&mut self, input: &[u8], output: &mut Vec<u8>) -> (r: Result<
        (),
        CipherStateError,
    >)
        requires
            old(self).wf(),
        ensures
            final(self).wf(),
            r is Ok ==> spec_receive_ok(
                old(self).remote_cipher(),
                input@,
                old(output)@,
                final(self).remote_cipher(),
                final(output)@,
            ),
            spec_receivable(old(self).remote_cipher(), input@, old(output)@) ==> r is Ok,
            r is Ok ==> old(self).remote_cipher().nonce_view() < u64::MAX && input@.len() >= 16
                && old(output)@.len() >= input@.len() - 16,
            final(self).session_view() == old(self).session_view(),
            final(self).remote_id_view() == old(self).remote_id_view(),
            r is Err ==> *final(self) == *old(self) && final(output)@ == old(output)@,
            r == Err::<(), CipherStateError>(CipherStateError::AuthenticationFailed)
                ==> (forall|pt: Seq<u8>|
                input@ != aead_enc_of(
                    old(self).remote_cipher().key_view(),
                    old(self).remote_cipher().nonce_view(),
                    Seq::<u8>::empty(),
                    pt,
                )),
    {
        let empty: Vec<u8> = Vec::new();
        proof {
            assert(empty@ =~= Seq::<u8>::empty());
        }
        match self.remote.decrypt_with_ad(empty.as_slice(), input, output) {
            Ok(()) => {
                self.remote.rekey();
                Ok(())
            },
            Err(e) => Err(e),
        }
    }
}

/// What a receive step accepts determines the plaintext: encryption under
/// a fixed key and counter is a function, so two different wire byte
/// strings accepted by the same stream state deliver two different
/// plaintexts, and the genuine ciphertext of a message delivers exactly
/// that message — an accepted message is never silently mapped to another
/// plaintext.
pub proof fn lemma_accepted_wire_determines_plaintext(
    key: Seq<u8>,
    nonce: u64,
    wire1: Seq<u8>,
    wire2: Seq<u8>,
    p1: Seq<u8>,
    p2: Seq<u8>,
)
    requires
        wire1 == aead_enc_of(key, nonce, Seq::<u8>::empty(), p1),
        wire2 == aead_enc_of(key, nonce, Seq::<u8>::empty(), p2),
        wire1 != wire2,
    ensures
        p1 != p2,
{
}

/// Half-duplex independence: after a split, a send step is a function of
/// the sending stream alone, and a receive step of the receiving stream
/// alone. Two sending streams that hold the same key and counter — however
/// much receiving happened beside them — accept the same inputs, put the
/// same bytes on the wire and step to the same successor key, so any
/// interleaving of sends on one half with receives on the other yields the
/// results of running the two directions sequentially.
pub proof fn lemma_half_duplex_independence(
    s1: CipherState,
    s2: CipherState,
    input: Seq<u8>,
    out: Seq<u8>,
)
    requires
        s1.key_view() == s2.key_view(),
        s1.nonce_view() == s2.nonce_view(),
    ensures
        spec_sendable(s1, input, out) == spec_sendable(s2, input, out),
        aead_enc_of(s1.key_view(), s1.nonce_view(), Seq::<u8>::empty(), input) == aead_enc_of(
            s2.key_view(),
            s2.nonce_view(),
            Seq::<u8>::empty(),
            input,
        ),
        spec_rekey(s1.key_view()) == spec_rekey(s2.key_view()),
{
}

/// Round trip: when the receiving stream holds the same key and counter as
/// the sending stream held, the plaintext a successful receive returns is
/// exactly the plaintext that was sent, and both streams step to the same
/// rekeyed key with the counter back at its initial value — so the
/// agreement carries on to every later message of an arbitrarily long
/// exchange.
pub proof fn lemma_round_trip(
    key: Seq<u8>,
    nonce: u64,
    sent: Seq<u8>,
    wire: Seq<u8>,
    delivered: Seq<u8>,
)
    requires
        wire == aead_enc_of(key, nonce, Seq::<u8>::empty(), sent),
        forall|other: Seq<u8>|
            #[trigger] aead_enc_of(key, nonce, Seq::<u8>::empty(), other) == aead_enc_of(
                key,
                nonce,
                Seq::<u8>::empty(),
                sent,
            ) ==> other == sent,
        wire == aead_enc_of(key, nonce, Seq::<u8>::empty(), delivered),
    ensures
        delivered == sent,
{
    assert(aead_enc_of(key, nonce, Seq::<u8>::empty(), delivered) == aead_enc_of(
        key,
        nonce,
        Seq::<u8>::empty(),
        sent,
    ));
}

} // verus!
