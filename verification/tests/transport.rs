//! The transport session: round trips over long rekeying chains, tamper
//! detection, buffer-size failures, and the independence of split halves.

use keynesis::key::{ed25519, Dh, Seed};
use keynesis::noise::ik::Ik;
use keynesis::noise::{CipherState, CipherStateError, TransportState};

fn seed(fill: u8) -> Seed {
    Seed::new(vec![fill; 32])
}

fn sessions() -> (TransportState, TransportState) {
    let initiator_key = ed25519::SecretKey::new(&seed(101));
    let responder_key = ed25519::SecretKey::new(&seed(102));
    let (wait, msg1) = Ik::new(b"transport")
        .initiate(&initiator_key, responder_key.public_key(), &seed(103))
        .expect("initiate");
    let (responder, msg2) = Ik::new(b"transport")
        .respond(&responder_key, &seed(104), &msg1)
        .expect("respond");
    let initiator = wait.receive(&initiator_key, &msg2).expect("receive");
    (initiator, responder)
}

#[test]
fn round_trip_long_chain() {
    let (mut a, mut b) = sessions();
    for i in 0..50u32 {
        let message = format!("message number {i} of a long rekeying chain");
        let message = message.as_bytes();
        let mut wire = vec![0u8; message.len() + 16];
        a.send(message, &mut wire).expect("send");
        assert_ne!(&wire[..message.len()], message, "plaintext must not appear on the wire");
        let mut plain = vec![0u8; message.len()];
        b.receive(&wire, &mut plain).expect("receive");
        assert_eq!(plain.as_slice(), message);

        let reply = format!("reply number {i}");
        let reply = reply.as_bytes();
        let mut wire = vec![0u8; reply.len() + 16];
        b.send(reply, &mut wire).expect("send reply");
        let mut plain = vec![0u8; reply.len()];
        a.receive(&wire, &mut plain).expect("receive reply");
        assert_eq!(plain.as_slice(), reply);

        assert_eq!(a.count_sent(), b.count_received());
        assert_eq!(b.count_sent(), a.count_received());
    }
}

#[test]
fn rekey_changes_the_wire() {
    let (mut a, mut b) = sessions();
    let message = b"same plaintext twice";
    let mut wire1 = vec![0u8; message.len() + 16];
    a.send(message, &mut wire1).expect("send");
    let mut plain = vec![0u8; message.len()];
    b.receive(&wire1, &mut plain).expect("receive");
    let mut wire2 = vec![0u8; message.len() + 16];
    a.send(message, &mut wire2).expect("send again");
    assert_ne!(wire1, wire2, "a fresh key must give a fresh ciphertext");
}

#[test]
fn tamper_detection_every_bit() {
    let message = b"abc";
    for byte in 0..message.len() + 16 {
        for bit in 0..8 {
            let (mut a, mut b) = sessions();
            let mut wire = vec![0u8; message.len() + 16];
            a.send(message, &mut wire).expect("send");
            let mut corrupted = wire.clone();
            corrupted[byte] ^= 1 << bit;
            let mut plain = vec![0u8; message.len()];
            let r = b.receive(&corrupted, &mut plain);
            assert!(
                matches!(r, Err(CipherStateError::AuthenticationFailed)),
                "flipping bit {bit} of byte {byte} must fail authentication"
            );
            // the receiving state is unchanged on failure: the genuine
            // wire still decrypts
            b.receive(&wire, &mut plain).expect("genuine wire");
            assert_eq!(plain.as_slice(), message);
        }
    }
}

#[test]
fn truncated_wire_fails() {
    let (mut a, mut b) = sessions();
    let message = b"hello world";
    let mut wire = vec![0u8; message.len() + 16];
    a.send(message, &mut wire).expect("send");
    let mut plain = vec![0u8; message.len()];
    let r = b.receive(&wire[..10], &mut plain);
    assert!(matches!(r, Err(CipherStateError::MalformedInput)));
    let r = b.receive(&wire[..message.len() + 15], &mut plain);
    assert!(matches!(r, Err(CipherStateError::AuthenticationFailed)));
    b.receive(&wire, &mut plain).expect("genuine wire still accepted");
}

#[test]
fn buffer_size_contract() {
    let (mut a, mut b) = sessions();
    let message = b"buffer sizing";
    let mut short = vec![0u8; message.len() + 15];
    assert!(matches!(
        a.send(message, &mut short),
        Err(CipherStateError::NotEnoughOutput)
    ));
    let mut exact = vec![0u8; message.len() + 16];
    a.send(message, &mut exact).expect("exact buffer");
    let mut short_out = vec![0u8; message.len() - 1];
    assert!(matches!(
        b.receive(&exact, &mut short_out),
        Err(CipherStateError::NotEnoughOutput)
    ));
    let mut out = vec![0u8; message.len()];
    b.receive(&exact, &mut out).expect("receive");
    assert_eq!(out.as_slice(), message);
}

#[test]
fn split_halves_work_independently() {
    let (a, b) = sessions();
    let (mut a_send, mut a_recv) = a.split();
    let (mut b_send, mut b_recv) = b.split();
    assert_eq!(a_send.noise_session(), b_recv.noise_session());
    assert_eq!(a_recv.noise_session(), b_send.noise_session());

    // interleave sends on one half with receives on the other half
    for i in 0..10u32 {
        let m = format!("a to b {i}");
        let m = m.as_bytes();
        let mut wire = vec![0u8; m.len() + 16];
        a_send.send(m, &mut wire).expect("a send");
        let n = format!("b to a {i}");
        let n = n.as_bytes();
        let mut wire2 = vec![0u8; n.len() + 16];
        b_send.send(n, &mut wire2).expect("b send");
        let mut out = vec![0u8; m.len()];
        b_recv.receive(&wire, &mut out).expect("b receive");
        assert_eq!(out.as_slice(), m);
        let mut out2 = vec![0u8; n.len()];
        a_recv.receive(&wire2, &mut out2).expect("a receive");
        assert_eq!(out2.as_slice(), n);
        assert_eq!(a_send.count_sent(), b_recv.count_received());
    }
}

#[test]
fn interleaving_matches_sequential() {
    // the same deterministic handshake twice: once driving the directions
    // interleaved, once sequentially; the wires must be identical
    let (a1, b1) = sessions();
    let (a2, b2) = sessions();
    let (mut s1, mut r1) = a1.split();
    let (mut s2, mut r2) = a2.split();
    let (mut bs1, mut br1) = b1.split();
    let (mut bs2, mut br2) = b2.split();

    let messages: Vec<Vec<u8>> = (0..6u32)
        .map(|i| format!("payload {i}").into_bytes())
        .collect();

    // interleaved: send a, send b, receive a, receive b, per round
    let mut wires_interleaved = Vec::new();
    for m in &messages {
        let mut w1 = vec![0u8; m.len() + 16];
        s1.send(m, &mut w1).expect("send");
        let mut w2 = vec![0u8; m.len() + 16];
        bs1.send(m, &mut w2).expect("send");
        let mut o1 = vec![0u8; m.len()];
        br1.receive(&w1, &mut o1).expect("receive");
        let mut o2 = vec![0u8; m.len()];
        r1.receive(&w2, &mut o2).expect("receive");
        wires_interleaved.push((w1, w2));
    }

    // sequential: all of one direction, then all of the other
    let mut wires_sequential = Vec::new();
    for m in &messages {
        let mut w1 = vec![0u8; m.len() + 16];
        s2.send(m, &mut w1).expect("send");
        wires_sequential.push(w1);
    }
    for (m, w1) in messages.iter().zip(&wires_sequential) {
        let mut o = vec![0u8; m.len()];
        br2.receive(w1, &mut o).expect("receive");
        assert_eq!(o.as_slice(), m.as_slice());
    }
    for (i, m) in messages.iter().enumerate() {
        let mut w2 = vec![0u8; m.len() + 16];
        bs2.send(m, &mut w2).expect("send");
        assert_eq!(wires_interleaved[i].1, w2, "order must not change the wire");
        let mut o = vec![0u8; m.len()];
        r2.receive(&w2, &mut o).expect("receive");
    }
    for (i, (w1, _)) in wires_interleaved.iter().enumerate() {
        assert_eq!(&wires_sequential[i], w1, "order must not change the wire");
    }
}

#[test]
fn cipher_state_direct_use() {
    let mut tx = CipherState::new(vec![9u8; 32]);
    let mut rx = CipherState::new(vec![9u8; 32]);
    assert_eq!(tx.nonce(), 0);
    let mut wire = vec![0u8; 5 + 16];
    tx.encrypt_with_ad(b"ad", b"hello", &mut wire).expect("encrypt");
    assert_eq!(tx.nonce(), 1);
    let mut out = vec![0u8; 5];
    rx.decrypt_with_ad(b"ad", &wire, &mut out).expect("decrypt");
    assert_eq!(&out, b"hello");
    // a different associated datum must not authenticate
    let mut rx2 = CipherState::new(vec![9u8; 32]);
    let r = rx2.decrypt_with_ad(b"xx", &wire, &mut out);
    assert!(matches!(r, Err(CipherStateError::AuthenticationFailed)));
}
