use keyplace::agent::AgentKey;
use keyplace::error::Error;
use keyplace::signature::Signature;
use keyplace::util::{from_base64_32, to_base64, try_64_from_slice, AsBytes, TryFromBytes};

#[test]
fn signature_round_trip_all_arities() {
    let agentkey = AgentKey::create(None);
    let fields: Vec<Vec<u8>> = vec![
        b"alpha".to_vec(),
        b"beta".to_vec(),
        b"gamma".to_vec(),
        b"delta".to_vec(),
    ];
    for arity in 1..=4usize {
        let content: Vec<Vec<u8>> = fields[..arity].to_vec();
        let sig = Signature::new(&agentkey, &content).unwrap();
        assert_eq!(sig.sig.len(), 64);
        assert!(Signature::verify(&agentkey.pubkey, &content, &sig));
    }
}

#[test]
fn signature_rejects_mutated_content() {
    let agentkey = AgentKey::create(None);
    let content: Vec<Vec<u8>> = vec![b"hello".to_vec(), b"world".to_vec()];
    let sig = Signature::new(&agentkey, &content).unwrap();

    let mut mutated = content.clone();
    mutated[1][0] ^= 0x01;
    assert!(!Signature::verify(&agentkey.pubkey, &mutated, &sig));
}

#[test]
fn signature_rejects_mutated_signature() {
    let agentkey = AgentKey::create(None);
    let content: Vec<Vec<u8>> = vec![b"hello".to_vec()];
    let mut sig = Signature::new(&agentkey, &content).unwrap();
    sig.sig[0] ^= 0x01;
    assert!(!Signature::verify(&agentkey.pubkey, &content, &sig));
}

#[test]
fn signature_rejects_other_key() {
    let signer = AgentKey::create(None);
    let other = AgentKey::create(None);
    let content: Vec<Vec<u8>> = vec![b"hello".to_vec()];
    let sig = Signature::new(&signer, &content).unwrap();
    assert!(!Signature::verify(&other.pubkey, &content, &sig));
}

#[test]
fn signature_is_deterministic() {
    let agentkey = AgentKey::create(Some(vec![3u8; 32]));
    let content: Vec<Vec<u8>> = vec![b"stable".to_vec()];
    let a = Signature::new(&agentkey, &content).unwrap();
    let b = Signature::new(&agentkey, &content).unwrap();
    assert_eq!(a.sig, b.sig);
}

#[test]
fn signature_bytes_round_trip() {
    let agentkey = AgentKey::create(None);
    let content: Vec<Vec<u8>> = vec![b"bytes".to_vec()];
    let sig = Signature::new(&agentkey, &content).unwrap();
    let bytes = sig.as_bytes();
    let back = Signature::from_bytes(&bytes).unwrap();
    assert_eq!(back.sig, sig.sig);

    let r = Signature::from_bytes(&bytes[..63]);
    assert!(matches!(r, Err(Error::LengthMismatch)));
}

#[test]
fn base64_known_value() {
    // The classic vector: "foobar" encodes to "Zm9vYmFy" unpadded.
    assert_eq!(to_base64(&b"foobar".to_vec()), "Zm9vYmFy");
    // 4 zero bytes: 6 characters, no padding.
    assert_eq!(to_base64(&vec![0u8; 4]), "AAAAAA");
}

#[test]
fn base64_decode_round_trip_and_errors() {
    let bytes: Vec<u8> = (0..32u8).collect();
    let s = to_base64(&bytes);
    assert_eq!(from_base64_32(&s).unwrap(), bytes);

    // Not base64 at all.
    assert!(matches!(from_base64_32("!!!"), Err(Error::EncodingError)));
    // Valid base64, wrong width.
    let short = to_base64(&vec![1u8; 8]);
    assert!(matches!(from_base64_32(&short), Err(Error::LengthMismatch)));
    // Padded form is rejected: the wire format is unpadded.
    assert!(matches!(
        from_base64_32("AA=="),
        Err(Error::EncodingError)
    ));
}

#[test]
fn try_64_from_slice_exact_width() {
    let v = vec![9u8; 64];
    assert_eq!(try_64_from_slice(&v).unwrap(), v);
    assert!(matches!(
        try_64_from_slice(&v[..63]),
        Err(Error::LengthMismatch)
    ));
    assert!(matches!(
        try_64_from_slice(&[0u8; 65]),
        Err(Error::LengthMismatch)
    ));
}

#[test]
fn error_descriptions_are_distinct() {
    let kinds = [
        Error::InvalidReferent,
        Error::Mac,
        Error::Signature,
        Error::Serialization,
        Error::Store,
        Error::LengthMismatch,
        Error::EncodingError,
    ];
    for (i, a) in kinds.iter().enumerate() {
        for (j, b) in kinds.iter().enumerate() {
            assert_eq!(i == j, a.describe() == b.describe());
        }
    }
}
