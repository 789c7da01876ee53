use rcli::cli::text::TextSignFormat;
use rcli::process::text::{
    process_decrypt, process_encrypt, process_generate_key, process_sign, process_verify, Blake3,
    Ed25519Sign, Ed25519Verify, KeyGenerator, KeyLoader,
};
use rcli::process::{CryptoError, KeyError, TextSign, TextVerify};

const KEY32: &[u8] = b"01234567890123456789012345678901";

fn generated_blake3() -> Blake3 {
    let keys = Blake3::generate().unwrap();
    Blake3::try_new(keys[0].as_slice()).unwrap()
}

#[test]
fn test_blake3_sign() {
    let input = "hello world".as_bytes();
    let blake3 = generated_blake3();
    let sig = blake3.sign(input);
    assert_eq!(sig.len(), 32);
}

#[test]
fn test_blake3_verify() {
    let input = "hello world";
    let blake3 = generated_blake3();
    let sign_data = blake3.sign(input.as_bytes());
    let verified = blake3.verify(input.as_bytes(), &sign_data).unwrap();
    assert!(verified);
}

#[test]
fn test_ed25519_sign() {
    let input = "hello world".as_bytes();
    let mut key: [u8; 32] = [0; 32];
    rand::RngCore::fill_bytes(&mut rand::thread_rng(), &mut key);
    let ed25519 = Ed25519Sign::new(key);
    let sig = ed25519.sign(input);
    assert_eq!(sig.len(), 64);
}

#[test]
fn test_ed25519_verify() {
    let keys = process_generate_key(TextSignFormat::Ed25519).unwrap();
    let sk = Ed25519Sign::load(keys[0].as_slice()).unwrap();
    let pk = Ed25519Verify::load(keys[1].as_slice()).unwrap();
    let input = "hello world";
    let sign_data = sk.sign(input.as_bytes());
    let verified = pk.verify(input.as_bytes(), &sign_data).unwrap();
    assert!(verified);
}

#[test]
fn test_sign_verify_round_trip_blake3() {
    let msg = b"round trip message";
    let sig = process_sign(msg, KEY32, TextSignFormat::Blake3).unwrap();
    assert_eq!(
        process_verify(msg, KEY32, &sig, TextSignFormat::Blake3),
        Ok(true)
    );
}

#[test]
fn test_sign_verify_round_trip_ed25519() {
    let msg = b"round trip message";
    let keys = process_generate_key(TextSignFormat::Ed25519).unwrap();
    let sig = process_sign(msg, &keys[0], TextSignFormat::Ed25519).unwrap();
    assert_eq!(
        process_verify(msg, &keys[1], &sig, TextSignFormat::Ed25519),
        Ok(true)
    );
}

#[test]
fn test_verify_other_message_blake3() {
    let sig = process_sign(b"message one", KEY32, TextSignFormat::Blake3).unwrap();
    assert_eq!(
        process_verify(b"message two", KEY32, &sig, TextSignFormat::Blake3),
        Ok(false)
    );
}

#[test]
fn test_verify_other_message_ed25519() {
    let keys = process_generate_key(TextSignFormat::Ed25519).unwrap();
    let sig = process_sign(b"message one", &keys[0], TextSignFormat::Ed25519).unwrap();
    assert_eq!(
        process_verify(b"message two", &keys[1], &sig, TextSignFormat::Ed25519),
        Ok(false)
    );
}

#[test]
fn test_tamper_any_bit_blake3() {
    let msg = b"tamper check";
    let signer = Blake3::try_new(KEY32).unwrap();
    let sig = signer.sign(msg);
    assert_eq!(signer.verify(msg, &sig), Ok(true));
    for byte in 0..sig.len() {
        for bit in 0..8 {
            let mut bad = sig.clone();
            bad[byte] ^= 1u8 << bit;
            assert_eq!(signer.verify(msg, &bad), Ok(false));
        }
    }
}

#[test]
fn test_tamper_any_bit_ed25519() {
    let msg = b"tamper check";
    let keys = process_generate_key(TextSignFormat::Ed25519).unwrap();
    let signer = Ed25519Sign::load(&keys[0]).unwrap();
    let verifier = Ed25519Verify::load(&keys[1]).unwrap();
    let sig = signer.sign(msg);
    assert_eq!(verifier.verify(msg, &sig), Ok(true));
    for byte in 0..sig.len() {
        for bit in 0..8 {
            let mut bad = sig.clone();
            bad[byte] ^= 1u8 << bit;
            assert_eq!(verifier.verify(msg, &bad), Ok(false));
        }
    }
}

#[test]
fn test_short_signature_blake3_is_false() {
    let msg = b"short signature";
    let signer = Blake3::try_new(KEY32).unwrap();
    let sig = signer.sign(msg);
    assert_eq!(signer.verify(msg, &sig[0..16]), Ok(false));
}

#[test]
fn test_short_signature_ed25519_is_error() {
    let msg = b"short signature";
    let keys = process_generate_key(TextSignFormat::Ed25519).unwrap();
    let verifier = Ed25519Verify::load(&keys[1]).unwrap();
    assert_eq!(
        verifier.verify(msg, &[0u8; 63]),
        Err(KeyError::BadSignatureLength)
    );
}

#[test]
fn test_deterministic_blake3_scenario() {
    // 32-byte key, input "hello world": the same key and input always yield
    // the same base64 signature, which verifies; "hello world!" does not.
    let msg = b"hello world";
    let sig1 = process_sign(msg, KEY32, TextSignFormat::Blake3).unwrap();
    let sig2 = process_sign(msg, KEY32, TextSignFormat::Blake3).unwrap();
    assert_eq!(sig1, sig2);
    assert_eq!(
        process_verify(msg, KEY32, &sig1, TextSignFormat::Blake3),
        Ok(true)
    );
    assert_eq!(
        process_verify(b"hello world!", KEY32, &sig1, TextSignFormat::Blake3),
        Ok(false)
    );
    // The digest is blake3's keyed hash of the message, base64-encoded.
    let key: &[u8; 32] = KEY32.try_into().unwrap();
    let expected = blake3::keyed_hash(key, msg);
    let decoded = rcli::process::b64::process_decode(&sig1, rcli::cli::base64::Base64Format::UrlSafe)
        .unwrap();
    assert_eq!(decoded.len(), 32);
    assert_eq!(decoded.as_slice(), expected.as_bytes());
}

#[test]
fn test_generate_key_shapes() {
    let mac = process_generate_key(TextSignFormat::Blake3).unwrap();
    assert_eq!(mac.len(), 1);
    assert_eq!(mac[0].len(), 32);
    for b in mac[0].iter() {
        assert!(b.is_ascii_graphic());
    }
    let pair = process_generate_key(TextSignFormat::Ed25519).unwrap();
    assert_eq!(pair.len(), 2);
    assert_eq!(pair[0].len(), 32);
    assert_eq!(pair[1].len(), 32);
    // The second element is the verifying key mathematically derived from the
    // first.
    let sk: [u8; 32] = pair[0].as_slice().try_into().unwrap();
    let derived = ed25519_dalek::SigningKey::from_bytes(&sk)
        .verifying_key()
        .to_bytes();
    assert_eq!(pair[1].as_slice(), derived.as_slice());
}

#[test]
fn test_ed25519_signature_matches_library() {
    // The produced signature is exactly what the asymmetric library computes.
    let msg = b"hello world";
    let keys = process_generate_key(TextSignFormat::Ed25519).unwrap();
    let signer = Ed25519Sign::load(&keys[0]).unwrap();
    let sig = signer.sign(msg);
    let sk: [u8; 32] = keys[0].as_slice().try_into().unwrap();
    let key = ed25519_dalek::SigningKey::from_bytes(&sk);
    let expected = ed25519_dalek::Signer::sign(&key, msg).to_bytes();
    assert_eq!(sig.as_slice(), expected.as_slice());
}

#[test]
fn test_load_short_key_fails() {
    assert_eq!(
        Blake3::load(&[0u8; 10]).map(|_| ()),
        Err(KeyError::TooShort)
    );
    assert_eq!(
        Ed25519Sign::load(&[0u8; 10]).map(|_| ()),
        Err(KeyError::TooShort)
    );
    assert_eq!(
        Ed25519Verify::load(&[0u8; 10]).map(|_| ()),
        Err(KeyError::TooShort)
    );
    assert_eq!(
        process_sign(b"m", &[0u8; 10], TextSignFormat::Blake3),
        Err(KeyError::TooShort)
    );
}

#[test]
fn test_verify_bad_encoding_short_circuits() {
    // A non-base64 signature fails with BadEncoding even when the key
    // material is also bad: decoding is checked first.
    assert_eq!(
        process_verify(b"m", KEY32, "!!!not base64!!!", TextSignFormat::Blake3),
        Err(KeyError::BadEncoding)
    );
    assert_eq!(
        process_verify(b"m", &[0u8; 10], "!!!not base64!!!", TextSignFormat::Ed25519),
        Err(KeyError::BadEncoding)
    );
}
