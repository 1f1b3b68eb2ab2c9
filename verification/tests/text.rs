use base64::engine::general_purpose::URL_SAFE_NO_PAD;
use base64::Engine;
use rcli::{
    key_text, process_text_decrypt, process_text_encrypt, process_text_generate,
    process_text_sign, process_text_verify, wants_fresh_key, Blake3, Ed25519Signer,
    Ed25519Verifier, KeyGenerator, KeyLoader, TextDecryptor, TextEncryptFormat, TextEncryptor,
    TextError, TextSign, TextSignFormat, TextVerify, XChaCha20Poly1305Key,
};

const BLAKE3_KEY: &[u8] = b"whats the Elvish word for friend";

const ED25519_SECRET: [u8; 32] = [
    157, 97, 177, 157, 239, 253, 90, 96, 186, 132, 74, 244, 146, 236, 44, 196, 68, 73, 197, 105,
    123, 50, 105, 25, 112, 59, 172, 3, 28, 174, 127, 96,
];

const ED25519_PUBLIC: [u8; 32] = [
    215, 90, 152, 1, 130, 177, 10, 183, 213, 75, 254, 211, 201, 100, 7, 58, 14, 225, 114, 243,
    218, 166, 35, 37, 175, 2, 26, 104, 247, 7, 81, 26,
];

const XCHACHA_KEY_TEXT: &str = "7o_szUy1jWr7WID0pXelySSbOmGl5OxqqMXrMRYbk4U";

fn hex(bytes: &[u8]) -> String {
    let mut out = String::new();
    for b in bytes {
        out.push_str(&format!("{:02x}", b));
    }
    out
}

#[test]
fn test_blake3_sign_verify() {
    let blake3 = Blake3::load(BLAKE3_KEY).unwrap();
    let data = b"hello!";
    let sig = blake3.sign(&data[..]).unwrap();
    assert!(blake3.verify(&data[..], &sig).unwrap());
}

#[test]
fn test_ed25519_sign_verify() {
    let sk = Ed25519Signer::load(&ED25519_SECRET).unwrap();
    let pk = Ed25519Verifier::load(&ED25519_PUBLIC).unwrap();

    let data = b"hello!";
    let sig = sk.sign(&data[..]).unwrap();
    assert!(pk.verify(&data[..], &sig).unwrap());
}

#[test]
fn test_load_xchacha20poly1305_key() {
    let stored = XCHACHA_KEY_TEXT.as_bytes();
    let from_file = XChaCha20Poly1305Key::load(key_text("fixtures/xchacha20poly1305_k.txt", Some(stored)));
    assert!(from_file.is_ok());
    let literal = XChaCha20Poly1305Key::load(key_text(XCHACHA_KEY_TEXT, None));
    assert!(literal.is_ok());
}

#[test]
fn test_xchacha20_encrypt_decrypt() {
    let orign = b"whats the Elvish word for friend".to_vec();
    let encrypted =
        process_text_encrypt(&orign, "-", None, TextEncryptFormat::XChaCha20Poly1305).unwrap();
    let encrypted: Vec<_> = encrypted.iter().map(|v| URL_SAFE_NO_PAD.encode(v)).collect();
    let t = process_text_decrypt(
        encrypted[1].as_bytes(),
        &encrypted[0],
        None,
        TextEncryptFormat::XChaCha20Poly1305,
    )
    .unwrap();
    assert_eq!(t, orign);
}

#[test]
fn keyed_hash_of_the_empty_message_is_the_published_digest() {
    let blake3 = Blake3::try_new(BLAKE3_KEY).ok().unwrap();
    let sig = blake3.sign(b"").unwrap();
    assert_eq!(sig.len(), 32);
    assert_eq!(
        hex(&sig),
        "92b2b75604ed3c761f9d6f62392c8a9227ad0ea3f09573e783f1498a4ed60d26"
    );
}

#[test]
fn keyed_hash_takes_the_first_32_bytes_of_a_longer_key() {
    let mut long = BLAKE3_KEY.to_vec();
    long.extend_from_slice(b"\nand more");
    let a = Blake3::try_new(BLAKE3_KEY).ok().unwrap();
    let b = Blake3::try_new(&long).ok().unwrap();
    assert_eq!(a.sign(b"hello!").unwrap(), b.sign(b"hello!").unwrap());
}

#[test]
fn keyed_hash_scenario_hello() {
    let keys = Blake3::generate().unwrap();
    assert_eq!(keys.len(), 1);
    let blake3 = Blake3::load(&keys[0]).unwrap();
    let sig = blake3.sign(b"hello!").unwrap();
    assert_eq!(blake3.verify(b"hello!", &sig), Ok(true));
    assert_eq!(blake3.verify(b"hello", &sig), Ok(false));
}

#[test]
fn keyed_hash_rejects_another_key() {
    let a = Blake3::new(*b"0123456789abcdef0123456789abcdef");
    let b = Blake3::new(*b"0123456789abcdef0123456789abcdeg");
    let sig = a.sign(b"hello!").unwrap();
    assert_eq!(a.verify(b"hello!", &sig), Ok(true));
    assert_eq!(b.verify(b"hello!", &sig), Ok(false));
}

#[test]
fn keyed_hash_answers_false_for_a_digest_of_the_wrong_length() {
    let blake3 = Blake3::new(*b"0123456789abcdef0123456789abcdef");
    let sig = blake3.sign(b"hello!").unwrap();
    assert_eq!(blake3.verify(b"hello!", &sig[..31]), Ok(false));
    assert_eq!(blake3.verify(b"hello!", b""), Ok(false));
}

#[test]
fn keyed_hash_key_of_31_bytes_is_a_format_error() {
    assert_eq!(Blake3::try_new(&BLAKE3_KEY[..31]).err(), Some(TextError::Format));
    assert_eq!(Blake3::load(&BLAKE3_KEY[..31]).err(), Some(TextError::Format));
    assert_eq!(Blake3::load(b"").err(), Some(TextError::Format));
    assert!(Blake3::load(BLAKE3_KEY).is_ok());
}

#[test]
fn ed25519_signature_of_the_empty_message_is_the_published_one() {
    let sk = Ed25519Signer::new(ED25519_SECRET);
    let sig = sk.sign(b"").unwrap();
    assert_eq!(sig.len(), 64);
    assert_eq!(
        hex(&sig),
        "e5564300c360ac729086e2cc806e828a84877f1eb8e5d974d873e06522490155\
         5fb8821590a33bacc61e39701cf9b46bd25bf5f0595bbe24655141438e7a100b"
    );
}

#[test]
fn ed25519_round_trip_with_a_fresh_pair() {
    let keys = Ed25519Signer::generate().unwrap();
    assert_eq!(keys.len(), 2);
    assert_eq!(keys[0].len(), 32);
    assert_eq!(keys[1].len(), 32);
    let sk = Ed25519Signer::load(&keys[0]).unwrap();
    let pk = Ed25519Verifier::load(&keys[1]).unwrap();
    let sig = sk.sign(b"a message").unwrap();
    assert_eq!(pk.verify(b"a message", &sig), Ok(true));
    assert_eq!(pk.verify(b"a messagf", &sig), Ok(false));
}

#[test]
fn ed25519_generated_public_key_belongs_to_the_secret() {
    let sk = Ed25519Signer::new(ED25519_SECRET);
    let pk = Ed25519Verifier::try_new(&ED25519_PUBLIC).ok().unwrap();
    let sig = sk.sign(b"hello!").unwrap();
    assert_eq!(pk.verify(b"hello!", &sig), Ok(true));
}

#[test]
fn ed25519_rejects_another_key() {
    let keys = Ed25519Signer::generate().unwrap();
    let other = Ed25519Verifier::load(&keys[1]).unwrap();
    let sk = Ed25519Signer::new(ED25519_SECRET);
    let sig = sk.sign(b"hello!").unwrap();
    assert_eq!(other.verify(b"hello!", &sig), Ok(false));
}

#[test]
fn ed25519_signature_of_63_bytes_is_a_format_error() {
    let sk = Ed25519Signer::new(ED25519_SECRET);
    let pk = Ed25519Verifier::new(ED25519_PUBLIC);
    let sig = sk.sign(b"hello!").unwrap();
    assert_eq!(pk.verify(b"hello!", &sig[..63]), Err(TextError::Format));
    let mut long = sig.clone();
    long.push(0);
    assert_eq!(pk.verify(b"hello!", &long), Err(TextError::Format));
    assert_eq!(pk.verify(b"hello!", &sig), Ok(true));
}

#[test]
fn ed25519_tampered_signature_is_not_accepted() {
    let sk = Ed25519Signer::new(ED25519_SECRET);
    let pk = Ed25519Verifier::new(ED25519_PUBLIC);
    let mut sig = sk.sign(b"hello!").unwrap();
    sig[10] ^= 1;
    assert_eq!(pk.verify(b"hello!", &sig), Ok(false));
}

#[test]
fn ed25519_keys_of_the_wrong_length_are_format_errors() {
    assert_eq!(Ed25519Signer::try_new(&ED25519_SECRET[..31]).err(), Some(TextError::Format));
    assert_eq!(Ed25519Signer::load(&[0u8; 33]).err(), Some(TextError::Format));
    assert_eq!(Ed25519Verifier::try_new(&ED25519_PUBLIC[..31]).err(), Some(TextError::Format));
    assert_eq!(Ed25519Verifier::load(&[0u8; 33]).err(), Some(TextError::Format));
    assert!(Ed25519Signer::load(&ED25519_SECRET).is_ok());
}

#[test]
fn ed25519_public_key_that_encodes_no_point_is_a_format_error() {
    let mut bytes = [0u8; 32];
    bytes[0] = 2;
    assert_eq!(Ed25519Verifier::try_new(&bytes).err(), Some(TextError::Format));
}

#[test]
fn cipher_scenario_hello() {
    let keys = XChaCha20Poly1305Key::generate().unwrap();
    assert_eq!(keys.len(), 1);
    assert_eq!(keys[0].len(), 32);
    let key = XChaCha20Poly1305Key::try_new(&keys[0]).ok().unwrap();
    let envelope = key.encrypt(b"hello!").unwrap();
    assert_eq!(key.decrypt(&envelope), Ok(b"hello!".to_vec()));

    let other = XChaCha20Poly1305Key::generate().unwrap();
    let other = XChaCha20Poly1305Key::try_new(&other[0]).ok().unwrap();
    assert_eq!(other.decrypt(&envelope), Err(TextError::Authentication));
}

#[test]
fn cipher_envelope_is_nonce_then_ciphertext_and_tag() {
    let key = XChaCha20Poly1305Key::new([7u8; 32]);
    let a = key.encrypt(b"hello!").unwrap();
    let b = key.encrypt(b"hello!").unwrap();
    assert_eq!(a.len(), 24 + 6 + 16);
    assert_eq!(b.len(), 24 + 6 + 16);
    assert_ne!(a[..24], b[..24]);
    assert_ne!(a, b);
    assert_ne!(&a[24..30], b"hello!");
    assert_eq!(key.encrypt(b"").unwrap().len(), 40);
    assert_eq!(key.decrypt(&key.encrypt(b"").unwrap()), Ok(Vec::new()));
}

#[test]
fn cipher_any_flipped_bit_fails_authentication() {
    let key = XChaCha20Poly1305Key::new([7u8; 32]);
    let envelope = key.encrypt(b"hello!").unwrap();
    for i in 0..envelope.len() {
        for bit in 0..8 {
            let mut tampered = envelope.clone();
            tampered[i] ^= 1 << bit;
            assert_eq!(key.decrypt(&tampered), Err(TextError::Authentication));
        }
    }
    assert_eq!(key.decrypt(&envelope), Ok(b"hello!".to_vec()));
}

#[test]
fn cipher_short_envelope_is_a_format_error() {
    let key = XChaCha20Poly1305Key::new([7u8; 32]);
    assert_eq!(key.decrypt(b""), Err(TextError::Format));
    assert_eq!(key.decrypt(&[0u8; 23]), Err(TextError::Format));
    assert_eq!(key.decrypt(&[0u8; 39]), Err(TextError::Format));
    assert_eq!(key.decrypt(&[0u8; 40]), Err(TextError::Authentication));
}

#[test]
fn cipher_key_of_the_wrong_length_is_a_format_error() {
    assert_eq!(XChaCha20Poly1305Key::try_new(&[1u8; 31]).err(), Some(TextError::Format));
    assert_eq!(XChaCha20Poly1305Key::try_new(&[1u8; 33]).err(), Some(TextError::Format));
    assert!(XChaCha20Poly1305Key::try_new(&[1u8; 32]).is_ok());
    let text_31 = URL_SAFE_NO_PAD.encode([1u8; 31]);
    assert_eq!(XChaCha20Poly1305Key::load(text_31.as_bytes()).err(), Some(TextError::Format));
    assert_eq!(XChaCha20Poly1305Key::load(b"not base64!").err(), Some(TextError::Format));
}

#[test]
fn cipher_key_gives_its_bytes_back() {
    let key = XChaCha20Poly1305Key::load(XCHACHA_KEY_TEXT.as_bytes()).unwrap();
    assert_eq!(URL_SAFE_NO_PAD.encode(key.to_vec()), XCHACHA_KEY_TEXT);
}

#[test]
fn key_argument_names_a_file_or_is_the_key() {
    assert_eq!(key_text("some/file", Some(b"content")), b"content");
    assert_eq!(key_text("literal", None), b"literal");
    assert!(wants_fresh_key("-"));
    assert!(wants_fresh_key(""));
    assert!(!wants_fresh_key("--"));
    assert!(!wants_fresh_key(XCHACHA_KEY_TEXT));
}

#[test]
fn sign_and_verify_as_text() {
    let sig = process_text_sign(b"", BLAKE3_KEY, TextSignFormat::Blake3).unwrap();
    assert_eq!(sig, "krK3VgTtPHYfnW9iOSyKkietDqPwlXPng_FJik7WDSY");
    assert_eq!(process_text_verify(b"", BLAKE3_KEY, TextSignFormat::Blake3, &sig), Ok(true));
    assert_eq!(process_text_verify(b"x", BLAKE3_KEY, TextSignFormat::Blake3, &sig), Ok(false));

    let sig = process_text_sign(b"hello!", &ED25519_SECRET, TextSignFormat::Ed25519).unwrap();
    assert_eq!(sig.len(), 86);
    assert_eq!(
        process_text_verify(b"hello!", &ED25519_PUBLIC, TextSignFormat::Ed25519, &sig),
        Ok(true)
    );
    assert_eq!(
        process_text_verify(b"hello", &ED25519_PUBLIC, TextSignFormat::Ed25519, &sig),
        Ok(false)
    );
}

#[test]
fn sign_and_verify_as_text_report_format_errors() {
    assert_eq!(
        process_text_sign(b"hello!", &BLAKE3_KEY[..31], TextSignFormat::Blake3),
        Err(TextError::Format)
    );
    assert_eq!(
        process_text_sign(b"hello!", BLAKE3_KEY, TextSignFormat::Ed25519).unwrap().len(),
        86
    );
    assert_eq!(
        process_text_sign(b"hello!", &BLAKE3_KEY[..31], TextSignFormat::Ed25519),
        Err(TextError::Format)
    );
    assert_eq!(
        process_text_verify(b"hello!", BLAKE3_KEY, TextSignFormat::Blake3, "not base64!"),
        Err(TextError::Format)
    );
    let short = URL_SAFE_NO_PAD.encode([0u8; 63]);
    assert_eq!(
        process_text_verify(b"hello!", &ED25519_PUBLIC, TextSignFormat::Ed25519, &short),
        Err(TextError::Format)
    );
    assert_eq!(
        process_text_verify(b"hello!", BLAKE3_KEY, TextSignFormat::Blake3, &short),
        Ok(false)
    );
}

#[test]
fn generated_keys_have_the_shape_of_their_scheme() {
    let keys = process_text_generate(TextSignFormat::Blake3).unwrap();
    assert_eq!(keys.len(), 1);
    assert_eq!(keys[0].len(), 32);
    assert!(keys[0].iter().all(|b| b.is_ascii_graphic()));
    let keys = process_text_generate(TextSignFormat::Ed25519).unwrap();
    assert_eq!(keys.len(), 2);
    assert_eq!(keys[0].len(), 32);
    assert_eq!(keys[1].len(), 32);
    let again = process_text_generate(TextSignFormat::Ed25519).unwrap();
    assert_ne!(keys[0], again[0]);
}

#[test]
fn encrypt_with_a_given_key_returns_that_key() {
    let out = process_text_encrypt(
        b"hello!",
        XCHACHA_KEY_TEXT,
        None,
        TextEncryptFormat::XChaCha20Poly1305,
    )
    .unwrap();
    assert_eq!(out.len(), 2);
    assert_eq!(URL_SAFE_NO_PAD.encode(&out[0]), XCHACHA_KEY_TEXT);
    assert_eq!(out[1].len(), 24 + 6 + 16);
    let text = URL_SAFE_NO_PAD.encode(&out[1]);
    assert_eq!(
        process_text_decrypt(
            text.as_bytes(),
            "key.txt",
            Some(XCHACHA_KEY_TEXT.as_bytes()),
            TextEncryptFormat::XChaCha20Poly1305
        ),
        Ok(b"hello!".to_vec())
    );
}

#[test]
fn encrypt_without_a_key_makes_one() {
    for key in ["-", ""] {
        let out =
            process_text_encrypt(b"hello!", key, None, TextEncryptFormat::XChaCha20Poly1305)
                .unwrap();
        assert_eq!(out.len(), 2);
        assert_eq!(out[0].len(), 32);
        let fresh = XChaCha20Poly1305Key::try_new(&out[0]).ok().unwrap();
        assert_eq!(fresh.decrypt(&out[1]), Ok(b"hello!".to_vec()));
    }
}

#[test]
fn decrypt_as_text_reports_each_failure() {
    let format = TextEncryptFormat::XChaCha20Poly1305;
    let out = process_text_encrypt(b"hello!", XCHACHA_KEY_TEXT, None, format).unwrap();
    let text = URL_SAFE_NO_PAD.encode(&out[1]);
    assert_eq!(
        process_text_decrypt(text.as_bytes(), "not a key", None, format),
        Err(TextError::Format)
    );
    assert_eq!(
        process_text_decrypt(b"not base64!", XCHACHA_KEY_TEXT, None, format),
        Err(TextError::Format)
    );
    let with_newline = format!("{}\n", text);
    assert_eq!(
        process_text_decrypt(with_newline.as_bytes(), XCHACHA_KEY_TEXT, None, format),
        Err(TextError::Format)
    );
    let short = URL_SAFE_NO_PAD.encode([0u8; 39]);
    assert_eq!(
        process_text_decrypt(short.as_bytes(), XCHACHA_KEY_TEXT, None, format),
        Err(TextError::Format)
    );
    let other = URL_SAFE_NO_PAD.encode([9u8; 32]);
    assert_eq!(
        process_text_decrypt(text.as_bytes(), &other, None, format),
        Err(TextError::Authentication)
    );
    assert_eq!(
        process_text_encrypt(b"hello!", "AAAA", None, format),
        Err(TextError::Format)
    );
}

#[test]
fn schemes_are_chosen_by_their_tag() {
    let signer = rcli::TextSigner::load(TextSignFormat::Blake3, BLAKE3_KEY).ok().unwrap();
    let verifier = rcli::TextVerifier::load(TextSignFormat::Blake3, BLAKE3_KEY).ok().unwrap();
    let sig = signer.sign(b"hello!").unwrap();
    assert_eq!(sig.len(), 32);
    assert_eq!(verifier.verify(b"hello!", &sig), Ok(true));
    assert_eq!(verifier.verify(b"hello", &sig), Ok(false));

    let signer = rcli::TextSigner::load(TextSignFormat::Ed25519, &ED25519_SECRET).ok().unwrap();
    let verifier = rcli::TextVerifier::load(TextSignFormat::Ed25519, &ED25519_PUBLIC).ok().unwrap();
    let sig = signer.sign(b"hello!").unwrap();
    assert_eq!(sig.len(), 64);
    assert_eq!(verifier.verify(b"hello!", &sig), Ok(true));
    assert_eq!(verifier.verify(b"hello", &sig), Ok(false));
    assert_eq!(verifier.verify(b"hello!", &sig[..32]), Err(TextError::Format));

    let keyed = rcli::TextVerifier::load(TextSignFormat::Blake3, BLAKE3_KEY).ok().unwrap();
    assert_eq!(keyed.verify(b"hello!", &sig), Ok(false));
    assert!(rcli::TextSigner::load(TextSignFormat::Ed25519, &BLAKE3_KEY[..31]).is_err());
    assert!(rcli::TextVerifier::load(TextSignFormat::Ed25519, &[2u8; 31]).is_err());
}

#[test]
fn cipher_is_chosen_by_its_tag() {
    let format = TextEncryptFormat::XChaCha20Poly1305;
    let cipher = rcli::TextCipher::load(format, XCHACHA_KEY_TEXT.as_bytes()).ok().unwrap();
    assert_eq!(URL_SAFE_NO_PAD.encode(cipher.key_bytes()), XCHACHA_KEY_TEXT);
    let envelope = cipher.encrypt(b"hello!").unwrap();
    assert_eq!(cipher.decrypt(&envelope), Ok(b"hello!".to_vec()));

    let fresh = rcli::TextCipher::fresh(format).ok().unwrap();
    assert_eq!(fresh.key_bytes().len(), 32);
    assert_ne!(fresh.key_bytes(), cipher.key_bytes());
    assert_eq!(fresh.decrypt(&envelope), Err(TextError::Authentication));
    assert!(rcli::TextCipher::load(format, b"AAAA").is_err());
}

#[test]
fn message_of_too_many_blocks_is_refused() {
    assert_eq!(rcli::check_message_len(0), Ok(()));
    assert_eq!(rcli::check_message_len(6), Ok(()));
    assert_eq!(rcli::check_message_len(usize::MAX), Err(TextError::MessageTooLong));
    assert_eq!(rcli::check_message_len(isize::MAX as usize), Err(TextError::MessageTooLong));
    if usize::BITS == 64 {
        let limit = (64u64 * 0xFFFF_FFFF) as usize;
        assert_eq!(rcli::check_message_len(limit - 1), Ok(()));
        assert_eq!(rcli::check_message_len(limit), Err(TextError::MessageTooLong));
    }
}

#[test]
fn errors_carry_a_message() {
    assert_eq!(TextError::Format.message(), "malformed key, signature or envelope");
    assert_eq!(TextError::Authentication.message(), "authentication failed");
    assert_eq!(TextError::MessageTooLong.message(), "message too long");
}

#[test]
fn key_blocks_are_stored_under_the_names_of_their_scheme() {
    assert_eq!(rcli::key_file_names(TextSignFormat::Blake3), vec!["blake3.txt"]);
    assert_eq!(rcli::key_file_names(TextSignFormat::Ed25519), vec!["ed25519.sk", "ed25519.pk"]);
    assert_eq!(
        rcli::envelope_file_names(TextEncryptFormat::XChaCha20Poly1305),
        ("xchacha20poly1305_k.txt", "xchacha20poly1305_t.txt")
    );
    let keys = process_text_generate(TextSignFormat::Ed25519).unwrap();
    assert_eq!(keys.len(), rcli::key_file_names(TextSignFormat::Ed25519).len());
    let keys = process_text_generate(TextSignFormat::Blake3).unwrap();
    assert_eq!(keys.len(), rcli::key_file_names(TextSignFormat::Blake3).len());
}
