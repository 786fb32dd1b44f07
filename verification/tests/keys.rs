//! Key kinds: deterministic generation, exchange symmetry, and
//! hierarchical-deterministic derivation.

use keynesis::key::{curve25519, ed25519, ed25519_extended, ed25519_hd, Dh, Seed};

fn seed(fill: u8) -> Seed {
    Seed::new(vec![fill; 32])
}

#[test]
fn names() {
    assert_eq!(<curve25519::SecretKey as Dh>::name(), "25519");
    assert_eq!(<ed25519::SecretKey as Dh>::name(), "ed25519");
    assert_eq!(<ed25519_extended::SecretKey as Dh>::name(), "ed25519");
    assert_eq!(<ed25519_hd::SecretKey as Dh>::name(), "ed25519");
}

#[test]
fn generation_is_deterministic() {
    let a = ed25519_hd::SecretKey::new(&seed(7));
    let b = ed25519_hd::SecretKey::new(&seed(7));
    let c = ed25519_hd::SecretKey::new(&seed(8));
    assert_eq!(a.public_key().key(), b.public_key().key());
    assert_ne!(a.public_key().key(), c.public_key().key());
    assert_eq!(a.public_key().chain_code(), b.public_key().chain_code());
}

#[test]
fn random_seeds_differ() {
    let a = Seed::random();
    let b = Seed::random();
    assert_eq!(a.as_bytes().len(), 32);
    assert_ne!(a.as_bytes(), b.as_bytes());
}

#[test]
fn dh_symmetry_curve25519() {
    let a = curve25519::SecretKey::new(&seed(1));
    let b = curve25519::SecretKey::new(&seed(2));
    let s1 = a.exchange(&b.public_key());
    let s2 = b.exchange(&a.public_key());
    assert_eq!(s1, s2);
    assert_ne!(s1.as_bytes().as_slice(), a.public_key().as_bytes().as_slice());
}

#[test]
fn dh_symmetry_ed25519() {
    let a = ed25519::SecretKey::new(&seed(3));
    let b = ed25519::SecretKey::new(&seed(4));
    assert_eq!(a.exchange(&b.public_key()), b.exchange(&a.public_key()));
}

#[test]
fn dh_symmetry_ed25519_extended() {
    let a = ed25519_extended::SecretKey::new(&seed(5));
    let b = ed25519_extended::SecretKey::new(&seed(6));
    assert_eq!(a.exchange(&b.public_key()), b.exchange(&a.public_key()));
}

#[test]
fn dh_symmetry_ed25519_hd() {
    let a = ed25519_hd::SecretKey::new(&seed(9));
    let b = ed25519_hd::SecretKey::new(&seed(10));
    let s1 = a.exchange(b.public_key().key());
    let s2 = b.exchange(a.public_key().key());
    assert_eq!(s1, s2);
}

#[test]
fn dh_through_the_trait_interface() {
    let a = <ed25519::SecretKey as Dh>::generate(&seed(11));
    let b = <ed25519::SecretKey as Dh>::generate(&seed(12));
    assert_eq!(a.dh(&b.public()), b.dh(&a.public()));
}

#[test]
fn public_derivation_matches_secret_derivation() {
    let root = ed25519_hd::SecretKey::new(&seed(21));
    let root_pk = root.public_key();
    for path in [&b"encryption:bob"[..], &b""[..], &b"a/very/long/derivation/path/with/many/segments"[..]] {
        let child_secret = root.derive(path);
        let child_public = root_pk.derive(path).expect("derivation must not degenerate");
        assert_eq!(child_secret.public_key().key(), child_public.key());
        assert_eq!(
            child_secret.public_key().chain_code(),
            child_public.chain_code()
        );
    }
}

#[test]
fn distinct_paths_give_distinct_children() {
    let root = ed25519_hd::SecretKey::new(&seed(22));
    let c1 = root.derive(b"path:one");
    let c2 = root.derive(b"path:two");
    assert_ne!(c1.public_key().key(), c2.public_key().key());
    assert_ne!(c1.public_key().key(), root.public_key().key());
}

#[test]
fn derived_keys_exchange_like_root_keys() {
    // Alice and Bob each hold a root key; each derives a purpose key and
    // uses the other's root public key to derive the matching counterpart.
    let alice_root = ed25519_hd::SecretKey::new(&seed(31));
    let bob_root = ed25519_hd::SecretKey::new(&seed(32));
    let alice_root_pk = alice_root.public_key();
    let bob_root_pk = bob_root.public_key();

    let alice_exchange_key = alice_root.derive(b"encryption:bob");
    let bob_exchange_key = bob_root.derive(b"encryption:alice");

    let shared_with_bob = alice_exchange_key.exchange(
        bob_root_pk.derive(b"encryption:alice").unwrap().key(),
    );
    let shared_with_alice = bob_exchange_key.exchange(
        alice_root_pk.derive(b"encryption:bob").unwrap().key(),
    );
    assert_eq!(shared_with_bob, shared_with_alice);
}

#[test]
fn checked_exchange_reports_degenerate_points() {
    // the all-zero public key is a low-order point on both exchange paths
    let low_order = ed25519::PublicKey::new(vec![0u8; 32]);
    let a = curve25519::SecretKey::new(&seed(13));
    assert!(a.dh_checked(&low_order).is_none());
    let e = ed25519::SecretKey::new(&seed(14));
    assert!(e.dh_checked(&low_order).is_none());

    let b = curve25519::SecretKey::new(&seed(15));
    let s = a.dh_checked(&b.public_key()).expect("an ordinary key must succeed");
    assert_eq!(s, a.dh(&b.public_key()));
}

#[test]
fn shared_secret_not_degenerate_for_ordinary_keys() {
    let a = ed25519_hd::SecretKey::new(&seed(41));
    let b = ed25519_hd::SecretKey::new(&seed(42));
    let s = a.exchange(b.public_key().key());
    assert!(!s.is_degenerate());
}
