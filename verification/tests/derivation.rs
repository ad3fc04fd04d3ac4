use keyplace::agent::AgentKey;
use keyplace::error::Error;
use keyplace::kdf::PassKey;

#[test]
fn derive_is_deterministic() {
    let a = PassKey::new("correct horse battery staple");
    let b = PassKey::new("correct horse battery staple");
    assert_eq!(a.mask, b.mask);
    assert_eq!(a.auth, b.auth);
    assert_eq!(a.mask.len(), 32);
    assert_eq!(a.auth.len(), 32);
}

#[test]
fn derive_distinct_passphrases_distinct_secrets() {
    let a = PassKey::new("correct horse battery staple");
    let b = PassKey::new("incorrect horse battery staple");
    assert_ne!(a.mask, b.mask);
    assert_ne!(a.auth, b.auth);
    // Domain separation: the two secrets of one passphrase also differ.
    assert_ne!(a.mask, a.auth);
}

#[test]
fn derive_accepts_empty_passphrase() {
    let a = PassKey::new("");
    assert_eq!(a.mask.len(), 32);
    assert_eq!(a.auth.len(), 32);
}

#[test]
fn mask_round_trip_recovers_identity() {
    let agentkey = AgentKey::create(None);
    let passkey = PassKey::new("I like turtles");
    let custkey = agentkey.custodial_key(&passkey);

    // The custodian never sees the seed in the record.
    assert_ne!(custkey.mask.mask, agentkey.seed);
    assert_eq!(custkey.pubkey, agentkey.pubkey);

    let passkey2 = PassKey::new("I like turtles");
    let recovered = AgentKey::from_custodial_key(&custkey, &passkey2).unwrap();
    assert_eq!(recovered, agentkey);
}

#[test]
fn mask_wrong_passphrase_fails_with_mac() {
    let agentkey = AgentKey::create(None);
    let passkey = PassKey::new("I like turtles");
    let custkey = agentkey.custodial_key(&passkey);

    let wrong = PassKey::new("I like tortoises");
    let r = AgentKey::from_custodial_key(&custkey, &wrong);
    assert!(matches!(r, Err(Error::Mac)));
}

#[test]
fn mask_tampered_record_fails_with_mac() {
    let agentkey = AgentKey::create(None);
    let passkey = PassKey::new("I like turtles");
    let mut custkey = agentkey.custodial_key(&passkey);
    custkey.mask.mask[7] ^= 0x01;
    let r = AgentKey::from_custodial_key(&custkey, &passkey);
    assert!(matches!(r, Err(Error::Mac)));
}

#[test]
fn create_from_seed_is_reproducible() {
    let seed = vec![7u8; 32];
    let a = AgentKey::create(Some(seed.clone()));
    let b = AgentKey::create(Some(seed));
    assert_eq!(a, b);
    assert_eq!(a.pubkey.len(), 32);
    assert_eq!(a.id(), b.id());
}

#[test]
fn duplicate_preserves_custodial_record() {
    let agentkey = AgentKey::create(None);
    let passkey = PassKey::new("spare");
    let custkey = agentkey.custodial_key(&passkey);
    let copy = custkey.duplicate();
    assert_eq!(copy.pubkey, custkey.pubkey);
    assert_eq!(copy.mask.mask, custkey.mask.mask);
    assert_eq!(copy.check, custkey.check);
    assert_eq!(copy.email, custkey.email);
}

#[test]
fn wipe_clears_secrets() {
    let mut passkey = PassKey::new("ephemeral");
    passkey.wipe();
    assert!(passkey.mask.is_empty());
    assert!(passkey.auth.is_empty());

    let mut agentkey = AgentKey::create(None);
    agentkey.wipe();
    assert!(agentkey.seed.is_empty());
}
