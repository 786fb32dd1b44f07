//! The IK handshake: completion between honest parties, identity
//! authentication, and rejection of tampered or malformed messages.

use keynesis::key::{curve25519, ed25519, ed25519_hd, Dh, Seed};
use keynesis::noise::ik::{HandshakeError, Ik};
use keynesis::noise::TransportState;

fn seed(fill: u8) -> Seed {
    Seed::new(vec![fill; 32])
}

fn run_handshake<K: Dh>(prologue: &[u8]) -> (TransportState, TransportState) {
    let initiator_key = K::generate(&seed(101));
    let responder_key = K::generate(&seed(102));
    let responder_pub = responder_key.public();

    let (wait, msg1) = Ik::new(prologue)
        .initiate(&initiator_key, responder_pub, &seed(103))
        .expect("initiate");
    let (responder_transport, msg2) = Ik::new(prologue)
        .respond(&responder_key, &seed(104), &msg1)
        .expect("respond");
    let initiator_transport = wait.receive(&initiator_key, &msg2).expect("receive");
    (initiator_transport, responder_transport)
}

#[test]
fn handshake_completes_ed25519() {
    let (a, b) = run_handshake::<ed25519::SecretKey>(b"prologue");
    assert_eq!(a.noise_session(), b.noise_session());
    assert_eq!(a.noise_session().as_bytes().len(), 64);
    assert_eq!(a.count_sent(), 0);
    assert_eq!(b.count_received(), 0);
}

#[test]
fn handshake_completes_curve25519() {
    let (a, b) = run_handshake::<curve25519::SecretKey>(b"prologue");
    assert_eq!(a.noise_session(), b.noise_session());
}

#[test]
fn handshake_completes_ed25519_hd() {
    let (a, b) = run_handshake::<ed25519_hd::SecretKey>(b"prologue");
    assert_eq!(a.noise_session(), b.noise_session());
}

#[test]
fn handshake_authenticates_identities() {
    let initiator_key = ed25519::SecretKey::new(&seed(101));
    let responder_key = ed25519::SecretKey::new(&seed(102));
    let (a, b) = run_handshake::<ed25519::SecretKey>(b"prologue");
    assert_eq!(a.remote_public_identity(), &responder_key.public_key());
    assert_eq!(b.remote_public_identity(), &initiator_key.public_key());
}

#[test]
fn different_prologues_give_different_sessions() {
    let (a, _) = run_handshake::<ed25519::SecretKey>(b"one");
    let (b, _) = run_handshake::<ed25519::SecretKey>(b"two");
    assert_ne!(a.noise_session(), b.noise_session());
}

#[test]
fn prologue_mismatch_fails() {
    let initiator_key = ed25519::SecretKey::new(&seed(1));
    let responder_key = ed25519::SecretKey::new(&seed(2));
    let (_, msg1) = Ik::new(b"left")
        .initiate(&initiator_key, responder_key.public_key(), &seed(3))
        .expect("initiate");
    let r = Ik::new(b"right").respond(&responder_key, &seed(4), &msg1);
    assert!(matches!(r, Err(HandshakeError::Authentication)));
}

#[test]
fn wrong_responder_key_fails() {
    let initiator_key = ed25519::SecretKey::new(&seed(1));
    let responder_key = ed25519::SecretKey::new(&seed(2));
    let impostor = ed25519::SecretKey::new(&seed(5));
    let (_, msg1) = Ik::new(b"prologue")
        .initiate(&initiator_key, impostor.public_key(), &seed(3))
        .expect("initiate");
    let r = Ik::new(b"prologue").respond(&responder_key, &seed(4), &msg1);
    assert!(matches!(r, Err(HandshakeError::Authentication)));
}

#[test]
fn tampered_message_one_fails() {
    let initiator_key = ed25519::SecretKey::new(&seed(1));
    let responder_key = ed25519::SecretKey::new(&seed(2));
    let (_, msg1) = Ik::new(b"prologue")
        .initiate(&initiator_key, responder_key.public_key(), &seed(3))
        .expect("initiate");
    for byte in [32usize, 50, 80, 95] {
        let mut corrupted = msg1.clone();
        corrupted[byte] ^= 0x01;
        let r = Ik::new(b"prologue").respond(&responder_key, &seed(4), &corrupted);
        assert!(r.is_err(), "corruption at byte {byte} must be rejected");
    }
}

#[test]
fn tampered_message_two_fails() {
    let initiator_key = ed25519::SecretKey::new(&seed(1));
    let responder_key = ed25519::SecretKey::new(&seed(2));
    let (wait, msg1) = Ik::new(b"prologue")
        .initiate(&initiator_key, responder_key.public_key(), &seed(3))
        .expect("initiate");
    let (_, msg2) = Ik::new(b"prologue")
        .respond(&responder_key, &seed(4), &msg1)
        .expect("respond");
    let mut corrupted = msg2.clone();
    corrupted[40] ^= 0x80;
    let r = wait.receive(&initiator_key, &corrupted);
    assert!(r.is_err());
}

#[test]
fn malformed_lengths_are_rejected() {
    let initiator_key = ed25519::SecretKey::new(&seed(1));
    let responder_key = ed25519::SecretKey::new(&seed(2));
    let r = Ik::new(b"prologue").respond(&responder_key, &seed(4), &[0u8; 95]);
    assert!(matches!(r, Err(HandshakeError::MalformedMessage)));
    let (wait, msg1) = Ik::new(b"prologue")
        .initiate(&initiator_key, responder_key.public_key(), &seed(3))
        .expect("initiate");
    assert_eq!(msg1.len(), 96);
    let r = wait.receive(&initiator_key, &[0u8; 47]);
    assert!(matches!(r, Err(HandshakeError::MalformedMessage)));
}
