use tmps_core::crypto::{check_cipher_output, classify_failure, DecryptionHalt};
use tmps_core::{
    decrypt_aes256_gcm, encrypt_aes256_gcm, encrypt_with_nonce, sha256_bytes, CryptoError,
};

const KEY: [u8; 32] = [0x11; 32];

fn is_authentication_error<T>(r: &Result<T, CryptoError>) -> bool {
    matches!(r, Err(CryptoError::Authentication(_)))
}

#[test]
fn decrypt_gives_back_what_encrypt_took() {
    let mut key = [0u8; 32];
    for (i, b) in key.iter_mut().enumerate() {
        *b = (i * 7 + 3) as u8;
    }
    for len in [0usize, 1, 15, 16, 17, 31, 32, 33, 255, 4096] {
        let plaintext: Vec<u8> = (0..len).map(|i| (i % 251) as u8).collect();
        let sealed = encrypt_aes256_gcm(&key, &plaintext).expect("encryption succeeds");
        let opened = decrypt_aes256_gcm(&key, &sealed.iv, &sealed.tag, &sealed.ciphertext)
            .expect("decryption succeeds");
        assert_eq!(opened, plaintext);
    }
}

#[test]
fn encryption_has_the_sizes_of_the_mode() {
    for len in [0usize, 1, 16, 34, 1000] {
        let plaintext = vec![0xa5u8; len];
        let sealed = encrypt_aes256_gcm(&KEY, &plaintext).unwrap();
        assert_eq!(sealed.ciphertext.len(), len);
        assert_eq!(sealed.iv.len(), 12);
        assert_eq!(sealed.tag.len(), 16);
    }
}

#[test]
fn encryption_hides_the_plaintext() {
    let plaintext = vec![0u8; 64];
    let sealed = encrypt_aes256_gcm(&KEY, &plaintext).unwrap();
    assert_ne!(sealed.ciphertext, plaintext);
    assert_ne!(sealed.tag, vec![0u8; 16]);
}

#[test]
fn encrypt_refuses_keys_of_wrong_length() {
    for len in [0usize, 1, 16, 24, 31, 33, 64] {
        let key = vec![0x11u8; len];
        let r = encrypt_aes256_gcm(&key, b"some bytes");
        match r {
            Err(CryptoError::InvalidKeyLength(n)) => assert_eq!(n, len),
            other => panic!("expected a key-length error, got {:?}", other),
        }
    }
}

#[test]
fn decrypt_refuses_keys_of_wrong_length() {
    let sealed = encrypt_aes256_gcm(&KEY, b"some bytes").unwrap();
    for len in [0usize, 1, 16, 24, 31, 33, 64] {
        let key = vec![0x11u8; len];
        let r = decrypt_aes256_gcm(&key, &sealed.iv, &sealed.tag, &sealed.ciphertext);
        match r {
            Err(CryptoError::InvalidKeyLength(n)) => assert_eq!(n, len),
            other => panic!("expected a key-length error, got {:?}", other),
        }
    }
}

#[test]
fn a_flipped_bit_in_the_ciphertext_is_detected() {
    let plaintext = b"dummy model contents for tmps test";
    let sealed = encrypt_aes256_gcm(&KEY, plaintext).unwrap();
    for bit in 0..sealed.ciphertext.len() * 8 {
        let mut tampered = sealed.ciphertext.clone();
        tampered[bit / 8] ^= 1 << (bit % 8);
        let r = decrypt_aes256_gcm(&KEY, &sealed.iv, &sealed.tag, &tampered);
        assert!(is_authentication_error(&r), "bit {} of the ciphertext", bit);
    }
}

#[test]
fn a_flipped_bit_in_the_tag_is_detected() {
    let plaintext = b"dummy model contents for tmps test";
    let sealed = encrypt_aes256_gcm(&KEY, plaintext).unwrap();
    for bit in 0..sealed.tag.len() * 8 {
        let mut tampered = sealed.tag.clone();
        tampered[bit / 8] ^= 1 << (bit % 8);
        let r = decrypt_aes256_gcm(&KEY, &sealed.iv, &tampered, &sealed.ciphertext);
        assert!(is_authentication_error(&r), "bit {} of the tag", bit);
    }
}

#[test]
fn a_flipped_bit_in_the_nonce_is_detected() {
    let plaintext = b"dummy model contents for tmps test";
    let sealed = encrypt_aes256_gcm(&KEY, plaintext).unwrap();
    for bit in 0..sealed.iv.len() * 8 {
        let mut tampered = sealed.iv.clone();
        tampered[bit / 8] ^= 1 << (bit % 8);
        let r = decrypt_aes256_gcm(&KEY, &tampered, &sealed.tag, &sealed.ciphertext);
        assert!(is_authentication_error(&r), "bit {} of the nonce", bit);
    }
}

#[test]
fn tampering_is_detected_on_an_empty_plaintext() {
    let sealed = encrypt_aes256_gcm(&KEY, b"").unwrap();
    let mut tag = sealed.tag.clone();
    tag[0] ^= 0x80;
    assert!(is_authentication_error(&decrypt_aes256_gcm(&KEY, &sealed.iv, &tag, &sealed.ciphertext)));
    let mut iv = sealed.iv.clone();
    iv[11] ^= 0x01;
    assert!(is_authentication_error(&decrypt_aes256_gcm(&KEY, &iv, &sealed.tag, &sealed.ciphertext)));
}

#[test]
fn another_key_does_not_decrypt() {
    let sealed = encrypt_aes256_gcm(&KEY, b"some bytes").unwrap();
    let other = [0x12u8; 32];
    let r = decrypt_aes256_gcm(&other, &sealed.iv, &sealed.tag, &sealed.ciphertext);
    assert!(is_authentication_error(&r));
}

#[test]
fn a_tag_of_wrong_length_is_refused() {
    let sealed = encrypt_aes256_gcm(&KEY, b"some bytes").unwrap();
    for len in [0usize, 1, 4, 8, 12, 15, 17, 32] {
        // A shortened tag is a prefix of the true one: it must not pass.
        let mut tag = sealed.tag.clone();
        tag.resize(len, 0);
        match decrypt_aes256_gcm(&KEY, &sealed.iv, &tag, &sealed.ciphertext) {
            Err(CryptoError::InvalidTagLength(n)) => assert_eq!(n, len),
            other => panic!("expected a refusal of the tag, got {:?}", other),
        }
    }
}

#[test]
fn a_nonce_of_wrong_length_is_refused() {
    let sealed = encrypt_aes256_gcm(&KEY, b"some bytes").unwrap();
    for len in [0usize, 1, 8, 11, 13, 16, 64] {
        let mut iv = sealed.iv.clone();
        iv.resize(len, 0);
        match decrypt_aes256_gcm(&KEY, &iv, &sealed.tag, &sealed.ciphertext) {
            Err(CryptoError::InvalidNonceLength(n)) => assert_eq!(n, len),
            other => panic!("expected a refusal of the nonce, got {:?}", other),
        }
        match encrypt_with_nonce(&KEY, iv, b"some bytes") {
            Err(CryptoError::InvalidNonceLength(n)) => assert_eq!(n, len),
            other => panic!("expected a refusal of the nonce, got {:?}", other),
        }
    }
}

#[test]
fn the_checks_come_in_their_order() {
    let r = decrypt_aes256_gcm(&[0u8; 31], &[0u8; 3], &[0u8; 5], b"some bytes");
    assert!(matches!(r, Err(CryptoError::InvalidKeyLength(31))));
    let r = decrypt_aes256_gcm(&KEY, &[0u8; 3], &[0u8; 5], b"some bytes");
    assert!(matches!(r, Err(CryptoError::InvalidNonceLength(3))));
    let r = decrypt_aes256_gcm(&KEY, &[0u8; 12], &[0u8; 5], b"some bytes");
    assert!(matches!(r, Err(CryptoError::InvalidTagLength(5))));
    let r = encrypt_with_nonce(&[0u8; 33], vec![0u8; 3], b"some bytes");
    assert!(matches!(r, Err(CryptoError::InvalidKeyLength(33))));
}

#[test]
fn an_input_beyond_the_backend_limit_is_refused() {
    // One byte more than the backend is given in one call.
    let huge = vec![0u8; 0x7fff_fff0];
    let r = encrypt_aes256_gcm(&KEY, &huge);
    assert!(matches!(r, Err(CryptoError::InputTooLong(0x7fff_fff0))));
    let r = encrypt_with_nonce(&KEY, vec![0u8; 12], &huge);
    assert!(matches!(r, Err(CryptoError::InputTooLong(0x7fff_fff0))));
    let r = decrypt_aes256_gcm(&KEY, &[0u8; 12], &[0u8; 16], &huge);
    assert!(matches!(r, Err(CryptoError::InputTooLong(0x7fff_fff0))));
    let r = encrypt_aes256_gcm(&[0u8; 16], &huge);
    assert!(matches!(r, Err(CryptoError::InvalidKeyLength(16))));
    let r = decrypt_aes256_gcm(&KEY, &[0u8; 12], &[0u8; 15], &huge);
    assert!(matches!(r, Err(CryptoError::InvalidTagLength(15))));
}

#[test]
fn a_failed_tag_check_is_an_authentication_error() {
    let words = "bad decrypt".to_string();
    match classify_failure("refused".to_string(), DecryptionHalt::AtTagCheck(words)) {
        CryptoError::Authentication(message) => assert_eq!(message, "bad decrypt"),
        other => panic!("expected an authentication error, got {:?}", other),
    }
}

#[test]
fn a_failure_before_the_tag_check_is_a_backend_error() {
    let words = "no such cipher".to_string();
    match classify_failure("refused".to_string(), DecryptionHalt::BeforeTagCheck(words)) {
        CryptoError::OpenSsl(message) => assert_eq!(message, "no such cipher"),
        other => panic!("expected a backend error, got {:?}", other),
    }
}

#[test]
fn a_refusal_that_no_step_repeats_is_a_backend_error() {
    match classify_failure("refused".to_string(), DecryptionHalt::Nowhere) {
        CryptoError::OpenSsl(message) => assert_eq!(message, "refused"),
        other => panic!("expected a backend error, got {:?}", other),
    }
}

#[test]
fn encryption_agrees_with_the_published_vectors() {
    // The published test vectors of the mode for a 256-bit key of all zeros
    // and a nonce of all zeros.
    let key = [0u8; 32];

    let sealed = encrypt_with_nonce(&key, vec![0u8; 12], &[]).unwrap();
    assert!(sealed.ciphertext.is_empty());
    assert_eq!(hex::encode(&sealed.tag), "530f8afbc74536b9a963b4f1c4cb738b");
    assert_eq!(sealed.iv, vec![0u8; 12]);

    let sealed = encrypt_with_nonce(&key, vec![0u8; 12], &[0u8; 16]).unwrap();
    assert_eq!(hex::encode(&sealed.ciphertext), "cea7403d4d606b6e074ec5d3baf39d18");
    assert_eq!(hex::encode(&sealed.tag), "d0d1c8a799996bf0265b98b5d48ab919");
    assert_eq!(sealed.iv, vec![0u8; 12]);
}

#[test]
fn an_encryption_holds_the_nonce_it_was_given() {
    let first_iv: Vec<u8> = (1..=12u8).collect();
    let second_iv: Vec<u8> = (101..=112u8).collect();
    let plaintext = b"the same plaintext";
    let first = encrypt_with_nonce(&KEY, first_iv.clone(), plaintext).unwrap();
    let second = encrypt_with_nonce(&KEY, second_iv.clone(), plaintext).unwrap();
    assert_eq!(first.iv, first_iv);
    assert_eq!(second.iv, second_iv);
    assert_ne!(first.iv, second.iv);
    assert_ne!(first.ciphertext, second.ciphertext);
    assert_ne!(first.tag, second.tag);

    let opened =
        decrypt_aes256_gcm(&KEY, &first_iv, &first.tag, &first.ciphertext).unwrap();
    assert_eq!(opened, plaintext);
    let crossed = decrypt_aes256_gcm(&KEY, &second_iv, &first.tag, &first.ciphertext);
    assert!(is_authentication_error(&crossed));
}

#[test]
fn the_same_nonce_gives_the_same_ciphertext() {
    let iv = vec![7u8; 12];
    let first = encrypt_with_nonce(&KEY, iv.clone(), b"the same plaintext").unwrap();
    let second = encrypt_with_nonce(&KEY, iv, b"the same plaintext").unwrap();
    assert_eq!(first.ciphertext, second.ciphertext);
    assert_eq!(first.tag, second.tag);
}

#[test]
fn two_encryptions_use_two_nonces() {
    let plaintext = b"the same plaintext";
    let first = encrypt_aes256_gcm(&KEY, plaintext).unwrap();
    let second = encrypt_aes256_gcm(&KEY, plaintext).unwrap();
    assert_ne!(first.iv, second.iv);
    assert_ne!(first.ciphertext, second.ciphertext);
    assert_ne!(first.iv, vec![0u8; 12]);
}

#[test]
fn decrypt_agrees_with_the_published_vectors() {
    // The published test vectors of the mode for a 256-bit key of all zeros
    // and a nonce of all zeros.
    let key = [0u8; 32];
    let iv = [0u8; 12];

    let tag = hex::decode("530f8afbc74536b9a963b4f1c4cb738b").unwrap();
    let opened = decrypt_aes256_gcm(&key, &iv, &tag, &[]).unwrap();
    assert!(opened.is_empty());

    let ciphertext = hex::decode("cea7403d4d606b6e074ec5d3baf39d18").unwrap();
    let tag = hex::decode("d0d1c8a799996bf0265b98b5d48ab919").unwrap();
    let opened = decrypt_aes256_gcm(&key, &iv, &tag, &ciphertext).unwrap();
    assert_eq!(opened, vec![0u8; 16]);
}

#[test]
fn cipher_output_of_the_right_length_is_accepted() {
    let r = check_cipher_output(3, Ok(vec![9, 8, 7]));
    assert_eq!(r.unwrap(), vec![9, 8, 7]);
    let r = check_cipher_output(0, Ok(Vec::new()));
    assert_eq!(r.unwrap(), Vec::<u8>::new());
}

#[test]
fn cipher_output_of_another_length_is_refused() {
    for output in [vec![], vec![1u8], vec![1u8, 2], vec![1u8, 2, 3, 4]] {
        match check_cipher_output(3, Ok(output)) {
            Err(CryptoError::OpenSsl(message)) => {
                assert_eq!(message, "cipher output length differs from input length")
            }
            other => panic!("expected a backend error, got {:?}", other),
        }
    }
}

#[test]
fn a_backend_failure_is_passed_on_in_its_words() {
    match check_cipher_output(3, Err("bad decrypt".to_string())) {
        Err(CryptoError::OpenSsl(message)) => assert_eq!(message, "bad decrypt"),
        other => panic!("expected a backend error, got {:?}", other),
    }
}

#[test]
fn digest_of_known_inputs() {
    assert_eq!(
        sha256_bytes(b""),
        "e3b0c44298fc1c149afbf4c8996fb92427ae41e4649b934ca495991b7852b855"
    );
    assert_eq!(
        sha256_bytes(b"abc"),
        "ba7816bf8f01cfea414140de5dae2223b00361a396177a9cb410ff61f20015ad"
    );
    assert_eq!(
        sha256_bytes(b"dummy model contents for tmps test"),
        "1d40e1e3eba138c8e736361009acc26a41f19173d79ddf1e5ead7b0e57c7999e"
    );
    let all: Vec<u8> = (0..=255u8).collect();
    assert_eq!(
        sha256_bytes(&all),
        "40aff2e9d2d8922e47afd4648e6967497158785fbd1da870e7110266bf944880"
    );
}

#[test]
fn digest_is_the_same_for_the_same_bytes() {
    let data = b"dummy model contents for tmps test";
    assert_eq!(sha256_bytes(data), sha256_bytes(data));
    let copy = data.to_vec();
    assert_eq!(sha256_bytes(&copy), sha256_bytes(data));
}

#[test]
fn digests_of_distinct_inputs_differ() {
    let samples: [&[u8]; 5] = [b"", b"abc", b"abd", b"weights", b"dummy model contents for tmps test"];
    for (i, x) in samples.iter().enumerate() {
        for y in samples.iter().skip(i + 1) {
            assert_ne!(sha256_bytes(x), sha256_bytes(y));
        }
    }
}

#[test]
fn digest_is_sixty_four_lowercase_hex_digits() {
    for data in [&b""[..], b"abc", b"weights"] {
        let text = sha256_bytes(data);
        assert_eq!(text.len(), 64);
        assert!(text.chars().all(|c| matches!(c, '0'..='9' | 'a'..='f')));
    }
}
