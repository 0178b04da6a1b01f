use sol_gateway::codec::{decode_base58, decode_base64, encode_base58, encode_base64};
use sol_gateway::error::AppError;
use sol_gateway::handlers::keypair::generate_keypair;
use sol_gateway::handlers::message::{sign_message, sign_then_verify, verify_message};
use sol_gateway::models::{SignMessageRequest, VerifyMessageRequest};

#[test]
fn keypair_has_documented_shape() {
    let kp = generate_keypair();
    let secret = decode_base58(&kp.secret_key).unwrap();
    let public = decode_base58(&kp.public_key).unwrap();
    assert_eq!(secret.len(), 64);
    assert_eq!(public.len(), 32);
    assert_eq!(&secret[32..], &public[..]);
}

#[test]
fn keypairs_are_fresh() {
    let a = generate_keypair();
    let b = generate_keypair();
    assert_ne!(a.secret_key, b.secret_key);
    assert_ne!(a.public_key, b.public_key);
}

#[test]
fn sign_then_verify_succeeds() {
    let kp = generate_keypair();
    let signed = sign_message(&SignMessageRequest {
        message: "Hello, Solana!".to_string(),
        secret: kp.secret_key,
    })
    .unwrap();
    assert_eq!(signed.message, "Hello, Solana!");
    assert_eq!(signed.public_key, kp.public_key);
    assert_eq!(decode_base64(&signed.signature).unwrap().len(), 64);

    let verified = verify_message(&VerifyMessageRequest {
        message: signed.message,
        signature: signed.signature,
        pubkey: signed.public_key,
    })
    .unwrap();
    assert!(verified.valid);
    assert_eq!(verified.message, "Hello, Solana!");
    assert_eq!(verified.pubkey, kp.public_key);
}

#[test]
fn sign_then_verify_law_holds() {
    let kp = generate_keypair();
    let r = sign_then_verify(&SignMessageRequest {
        message: "round trip".to_string(),
        secret: kp.secret_key,
    });
    assert_eq!(r, Some(true));

    let r = sign_then_verify(&SignMessageRequest {
        message: "round trip".to_string(),
        secret: "not base58 I promise".to_string(),
    });
    assert_eq!(r, None);
}

#[test]
fn tampering_with_any_signature_byte_invalidates_it() {
    let kp = generate_keypair();
    let signed = sign_message(&SignMessageRequest {
        message: "tamper test".to_string(),
        secret: kp.secret_key,
    })
    .unwrap();
    let sig = decode_base64(&signed.signature).unwrap();
    for i in 0..sig.len() {
        let mut altered = sig.clone();
        altered[i] ^= 0x01;
        let verified = verify_message(&VerifyMessageRequest {
            message: "tamper test".to_string(),
            signature: encode_base64(&altered),
            pubkey: signed.public_key.clone(),
        })
        .unwrap();
        assert!(!verified.valid);
    }
}

#[test]
fn verify_rejects_wrong_message_and_wrong_key() {
    let kp_a = generate_keypair();
    let kp_b = generate_keypair();
    let signed = sign_message(&SignMessageRequest {
        message: "a".to_string(),
        secret: kp_a.secret_key,
    })
    .unwrap();

    let other_message = verify_message(&VerifyMessageRequest {
        message: "b".to_string(),
        signature: signed.signature.clone(),
        pubkey: signed.public_key.clone(),
    })
    .unwrap();
    assert!(!other_message.valid);

    let other_key = verify_message(&VerifyMessageRequest {
        message: "a".to_string(),
        signature: signed.signature,
        pubkey: kp_b.public_key,
    })
    .unwrap();
    assert!(!other_key.valid);
}

#[test]
fn sign_rejects_secret_of_wrong_length() {
    for len in [0usize, 32, 63, 65] {
        let err = sign_message(&SignMessageRequest {
            message: "m".to_string(),
            secret: encode_base58(&vec![1u8; len]),
        })
        .unwrap_err();
        assert!(matches!(err, AppError::InvalidInput(m) if m == "Secret key length invalid"));
    }
}

#[test]
fn sign_rejects_non_base58_secret() {
    let err = sign_message(&SignMessageRequest {
        message: "m".to_string(),
        secret: "0OIl not base58".to_string(),
    })
    .unwrap_err();
    assert!(matches!(err, AppError::InvalidInput(m) if m == "Invalid secret key"));
}

#[test]
fn sign_reports_internal_error_on_mismatched_keypair_material() {
    // 64 bytes whose public half is not the key derived from the secret half.
    let kp_a = generate_keypair();
    let kp_b = generate_keypair();
    let mut bytes = decode_base58(&kp_a.secret_key).unwrap();
    let other_public = decode_base58(&kp_b.public_key).unwrap();
    bytes[32..].copy_from_slice(&other_public);
    let err = sign_message(&SignMessageRequest {
        message: "m".to_string(),
        secret: encode_base58(&bytes),
    })
    .unwrap_err();
    assert!(matches!(err, AppError::InternalError));
}

#[test]
fn verify_rejects_malformed_public_key() {
    let err = verify_message(&VerifyMessageRequest {
        message: "m".to_string(),
        signature: encode_base64(&[0u8; 64]),
        pubkey: "!!!".to_string(),
    })
    .unwrap_err();
    assert!(matches!(err, AppError::InvalidInput(m) if m == "Invalid public key"));

    let err = verify_message(&VerifyMessageRequest {
        message: "m".to_string(),
        signature: encode_base64(&[0u8; 64]),
        pubkey: encode_base58(&[1, 2, 3]),
    })
    .unwrap_err();
    assert!(matches!(err, AppError::InvalidInput(m) if m == "Invalid pubkey bytes"));
}

#[test]
fn verify_rejects_malformed_signature() {
    let kp = generate_keypair();
    let err = verify_message(&VerifyMessageRequest {
        message: "m".to_string(),
        signature: "%%%".to_string(),
        pubkey: kp.public_key.clone(),
    })
    .unwrap_err();
    assert!(matches!(err, AppError::InvalidInput(m) if m == "Invalid signature base64"));

    let err = verify_message(&VerifyMessageRequest {
        message: "m".to_string(),
        signature: encode_base64(&[1, 2, 3]),
        pubkey: kp.public_key,
    })
    .unwrap_err();
    assert!(matches!(err, AppError::InvalidInput(m) if m == "Invalid signature bytes"));
}

#[test]
fn signing_is_deterministic() {
    let kp = generate_keypair();
    let req = SignMessageRequest {
        message: "same message".to_string(),
        secret: kp.secret_key.clone(),
    };
    let first = sign_message(&req).unwrap();
    let second = sign_message(&req).unwrap();
    assert_eq!(first.signature, second.signature);
    assert_ne!(first.signature, encode_base64(&decode_base58(&kp.secret_key).unwrap()));
}
