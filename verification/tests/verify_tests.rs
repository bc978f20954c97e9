use p256::ecdsa::signature::Signer;
use p256::ecdsa::{Signature, SigningKey, VerifyingKey};
use tmtool::signature::key_is_on_curve;
use tmtool::{p256_verify, TrustMLibError};

/// A key pair made from a fixed secret, the stored form of its public key
/// (64 bytes, x then y), and a signature of `payload`.
fn signed(payload: &[u8]) -> (Vec<u8>, Vec<u8>) {
    let signing_key = SigningKey::from_slice(&[0x42u8; 32]).unwrap();
    let verifying_key = VerifyingKey::from(&signing_key);
    let encoded = verifying_key.to_encoded_point(false);
    let stored = encoded.as_bytes()[1..].to_vec();
    let signature: Signature = signing_key.sign(payload);
    (stored, signature.to_bytes().to_vec())
}

#[test]
fn test_verify() {
    let payload = b"payload signed by the key in the slot".to_vec();
    let (key, signature) = signed(&payload);
    assert_eq!(key.len(), 64);
    assert!(key_is_on_curve(&key));
    p256_verify(&key, &signature, &payload).unwrap();
}

#[test]
fn verify_rejects_another_payload() {
    let (key, signature) = signed(b"first payload");
    match p256_verify(&key, &signature, b"second payload") {
        Err(TrustMLibError::VerifyError(message)) => {
            assert_eq!(message, "signature verification failed: signature error")
        }
        other => panic!("unexpected result {:?}", other),
    }
}

#[test]
fn verify_rejects_a_malformed_signature() {
    let (key, signature) = signed(b"payload");
    match p256_verify(&key, &signature[..63], b"payload") {
        Err(TrustMLibError::VerifyError(message)) => {
            assert_eq!(message, "failed to parse signature: signature error")
        }
        other => panic!("unexpected result {:?}", other),
    }
    match p256_verify(&key, &[0u8; 64], b"payload") {
        Err(TrustMLibError::VerifyError(message)) => {
            assert_eq!(message, "failed to parse signature: signature error")
        }
        other => panic!("unexpected result {:?}", other),
    }
}

#[test]
fn keys_off_the_curve_are_refused() {
    assert!(!key_is_on_curve(&[0u8; 64]));
    assert!(!key_is_on_curve(&[0xffu8; 64]));
    let (key, _) = signed(b"payload");
    assert!(!key_is_on_curve(&key[..63]));
    let mut moved = key.clone();
    moved[63] ^= 1;
    assert!(!key_is_on_curve(&moved));
}
