use keyplace::agent::AgentKey;
use keyplace::custodian::{CustodialAgentKey, UserAuthKey};
use keyplace::kdf::PassKey;
use keyplace::store::{AuthQuery, CredentialError, CredentialStore, KeyRecord, Session};

fn entry(label: &str, passphrase: &str, agentkey: &AgentKey) -> (KeyRecord, PassKey) {
    let passkey = PassKey::new(passphrase);
    let record = KeyRecord {
        label: label.to_string(),
        user_auth_key: passkey.auth(),
        custodial_key: agentkey.custodial_key(&passkey),
    };
    (record, passkey)
}

#[test]
fn register_twice_fails_with_already_exists() {
    let mut store = CredentialStore::new();
    let agentkey = AgentKey::create(None);
    let (rec, _) = entry("primary", "one fish two fish", &agentkey);
    let (rec2, _) = entry("primary", "red fish blue fish", &agentkey);

    assert!(store
        .register("bob@cats.org".to_string(), "Bob the cat".to_string(), vec![rec])
        .is_ok());
    let r = store.register("bob@cats.org".to_string(), "Bob again".to_string(), vec![rec2]);
    assert!(matches!(r, Err(CredentialError::AlreadyExists)));
}

#[test]
fn register_empty_entry_list_fails() {
    let mut store = CredentialStore::new();
    let r = store.register("bob@cats.org".to_string(), "Bob the cat".to_string(), Vec::new());
    assert!(matches!(r, Err(CredentialError::EmptyEntryList)));
}

#[test]
fn authenticate_failures_are_uniform() {
    let mut store = CredentialStore::new();
    let agentkey = AgentKey::create(None);
    let (rec, passkey) = entry("primary", "one fish two fish", &agentkey);
    store
        .register("bob@cats.org".to_string(), "Bob the cat".to_string(), vec![rec])
        .unwrap();

    // Unknown account.
    let q = AuthQuery { label: "primary".to_string(), user_auth_key: passkey.auth() };
    let unknown_account = store.authenticate(&"eve@cats.org".to_string(), &q);
    // Known account, unknown label.
    let q2 = AuthQuery { label: "secondary".to_string(), user_auth_key: passkey.auth() };
    let unknown_label = store.authenticate(&"bob@cats.org".to_string(), &q2);
    // Known account and label, wrong secret.
    let wrong = PassKey::new("red fish blue fish");
    let q3 = AuthQuery { label: "primary".to_string(), user_auth_key: wrong.auth() };
    let wrong_secret = store.authenticate(&"bob@cats.org".to_string(), &q3);

    let e1 = unknown_account.err().unwrap();
    let e2 = unknown_label.err().unwrap();
    let e3 = wrong_secret.err().unwrap();
    assert!(matches!(e1, CredentialError::NotFound));
    assert_eq!(e1, e2);
    assert_eq!(e2, e3);
}

#[test]
fn authenticate_success_returns_record() {
    let mut store = CredentialStore::new();
    let agentkey = AgentKey::create(None);
    let (rec, passkey) = entry("primary", "one fish two fish", &agentkey);
    let stored = rec.custodial_key.duplicate();
    store
        .register("bob@cats.org".to_string(), "Bob the cat".to_string(), vec![rec])
        .unwrap();

    let q = AuthQuery { label: "primary".to_string(), user_auth_key: passkey.auth() };
    let (session, found) = store.authenticate(&"bob@cats.org".to_string(), &q).unwrap();
    assert_eq!(session.uid, "bob@cats.org");
    assert_eq!(found.label, "primary");
    assert_eq!(found.custodial_key.mask.mask, stored.mask.mask);
    assert_eq!(found.custodial_key.pubkey, stored.pubkey);
    assert_eq!(found.custodial_key.check, stored.check);
}

#[test]
fn recover_returns_first_match_only() {
    let mut store = CredentialStore::new();
    let agentkey = AgentKey::create(None);
    let mut records = Vec::new();
    let mut passkeys = Vec::new();
    for i in 0..5 {
        let (rec, pk) = entry(&format!("code_{}", i), &format!("printed code {}", i), &agentkey);
        records.push(rec);
        passkeys.push(pk);
    }
    store
        .register("bob@cats.org".to_string(), "Bob the cat".to_string(), records)
        .unwrap();

    // Five attempts; only the third carries the right secret for its label.
    let mut attempts = Vec::new();
    for i in 0..5 {
        let secret = if i == 2 {
            passkeys[2].auth()
        } else {
            PassKey::new("a wrong guess").auth()
        };
        attempts.push(AuthQuery { label: format!("code_{}", i), user_auth_key: secret });
    }
    let found = store.recover("bob@cats.org".to_string(), attempts).unwrap();
    assert_eq!(found.label, "code_2");

    // No matching attempt: the same undistinguished error.
    let attempts: Vec<AuthQuery> = (0..5)
        .map(|i| AuthQuery {
            label: format!("code_{}", i),
            user_auth_key: PassKey::new("a wrong guess").auth(),
        })
        .collect();
    let r = store.recover("bob@cats.org".to_string(), attempts);
    assert!(matches!(r, Err(CredentialError::NotFound)));

    // Unknown account: also the same error.
    let r = store.recover("eve@cats.org".to_string(), Vec::new());
    assert!(matches!(r, Err(CredentialError::NotFound)));
}

#[test]
fn set_keys_overwrites_and_appends() {
    let mut store = CredentialStore::new();
    let agentkey = AgentKey::create(None);
    let (rec, _old_passkey) = entry("primary", "old passphrase", &agentkey);
    let session = store
        .register("bob@cats.org".to_string(), "Bob the cat".to_string(), vec![rec])
        .unwrap();

    // Overwrite "primary" and append "backup".
    let (new_primary, new_passkey) = entry("primary", "new passphrase", &agentkey);
    let (backup, backup_passkey) = entry("backup", "backup phrase", &agentkey);
    store.set_keys(&session, vec![new_primary, backup]).unwrap();

    // The old secret no longer authenticates; the new one does.
    let q_old = AuthQuery {
        label: "primary".to_string(),
        user_auth_key: PassKey::new("old passphrase").auth(),
    };
    assert!(store.authenticate(&"bob@cats.org".to_string(), &q_old).is_err());
    let q_new = AuthQuery { label: "primary".to_string(), user_auth_key: new_passkey.auth() };
    assert!(store.authenticate(&"bob@cats.org".to_string(), &q_new).is_ok());
    let q_backup = AuthQuery { label: "backup".to_string(), user_auth_key: backup_passkey.auth() };
    assert!(store.authenticate(&"bob@cats.org".to_string(), &q_backup).is_ok());
}

#[test]
fn authenticate_malformed_secret_fails() {
    let mut store = CredentialStore::new();
    let agentkey = AgentKey::create(None);
    let (rec, _) = entry("primary", "one fish two fish", &agentkey);
    store
        .register("bob@cats.org".to_string(), "Bob the cat".to_string(), vec![rec])
        .unwrap();

    // A secret of the wrong width can never match a stored 32-byte one.
    let q = AuthQuery {
        label: "primary".to_string(),
        user_auth_key: UserAuthKey { auth: vec![1, 2, 3] },
    };
    let r = store.authenticate(&"bob@cats.org".to_string(), &q);
    assert!(matches!(r, Err(CredentialError::NotFound)));
}

#[test]
fn set_keys_requires_valid_session() {
    let mut store = CredentialStore::new();
    let fake = Session { uid: "nobody@nowhere".to_string() };
    let r = store.set_keys(&fake, Vec::new());
    assert!(matches!(r, Err(CredentialError::SessionInvalid)));
}

#[test]
fn key_mask_base64_round_trips() {
    let agentkey = AgentKey::create(None);
    let passkey = PassKey::new("round trip");
    let custkey: CustodialAgentKey = agentkey.custodial_key(&passkey);
    let encoded = custkey.mask.base64();
    let decoded = keyplace::util::from_base64_32(&encoded).unwrap();
    assert_eq!(&decoded, custkey.mask.as_bytes());
}
