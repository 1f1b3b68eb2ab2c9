use rcli::{
    encrypt_format_from_lower, parse_encrypt_format, parse_format, parse_sign_format,
    sign_format_from_lower, OutputFormat, TextEncryptFormat, TextSignFormat,
};

#[test]
fn sign_formats_are_read_in_any_case() {
    assert_eq!(parse_sign_format("blake3"), Ok(TextSignFormat::Blake3));
    assert_eq!(parse_sign_format("BLAKE3"), Ok(TextSignFormat::Blake3));
    assert_eq!(parse_sign_format("Ed25519"), Ok(TextSignFormat::Ed25519));
    assert_eq!(parse_sign_format("ed25519"), Ok(TextSignFormat::Ed25519));
    assert_eq!(parse_sign_format("BLA\u{212A}E3"), Ok(TextSignFormat::Blake3));
    assert_eq!(parse_sign_format("blake"), Err("Invalid format"));
    assert_eq!(parse_sign_format(""), Err("Invalid format"));
    assert_eq!(parse_sign_format(" blake3"), Err("Invalid format"));
}

#[test]
fn sign_format_in_lower_case_is_read_exactly() {
    assert_eq!(sign_format_from_lower("blake3"), Ok(TextSignFormat::Blake3));
    assert_eq!(sign_format_from_lower("ed25519"), Ok(TextSignFormat::Ed25519));
    assert_eq!(sign_format_from_lower("BLAKE3"), Err("Invalid format"));
    assert_eq!(encrypt_format_from_lower("XChaCha20Poly1305"), Err("Invalid encrypt format"));
}

#[test]
fn encrypt_format_is_read_in_any_case() {
    assert_eq!(parse_encrypt_format("xchacha20poly1305"), Ok(TextEncryptFormat::XChaCha20Poly1305));
    assert_eq!(parse_encrypt_format("XChaCha20Poly1305"), Ok(TextEncryptFormat::XChaCha20Poly1305));
    assert_eq!(parse_encrypt_format("chacha20poly1305"), Err("Invalid encrypt format"));
}

#[test]
fn output_format_is_read_in_lower_case_only() {
    assert_eq!(parse_format("json"), Ok(OutputFormat::Json));
    assert_eq!(parse_format("yaml"), Ok(OutputFormat::Yaml));
    assert_eq!(parse_format("JSON"), Err("Invalid format"));
    assert_eq!(parse_format("toml"), Err("Invalid format"));
}

#[test]
fn formats_have_names_that_read_back() {
    assert_eq!(TextSignFormat::Blake3.name(), "blake3");
    assert_eq!(TextSignFormat::Ed25519.name(), "ed25519");
    assert_eq!(TextEncryptFormat::XChaCha20Poly1305.name(), "xchacha20poly1305");
    assert_eq!(OutputFormat::Json.name(), "json");
    assert_eq!(OutputFormat::Yaml.name(), "yaml");
    assert_eq!(<&str>::from(TextSignFormat::Blake3), "blake3");
    assert_eq!(<&str>::from(TextSignFormat::Ed25519), "ed25519");
    assert_eq!(<&str>::from(TextEncryptFormat::XChaCha20Poly1305), "xchacha20poly1305");
    assert_eq!(<&str>::from(OutputFormat::Json), "json");
    assert_eq!(<&str>::from(OutputFormat::Yaml), "yaml");
    assert_eq!("blake3".parse::<TextSignFormat>(), Ok(TextSignFormat::Blake3));
    assert_eq!("ED25519".parse::<TextSignFormat>(), Ok(TextSignFormat::Ed25519));
    assert_eq!("xchacha20poly1305".parse::<TextEncryptFormat>(), Ok(TextEncryptFormat::XChaCha20Poly1305));
    assert_eq!("yaml".parse::<OutputFormat>(), Ok(OutputFormat::Yaml));
    assert_eq!("Yaml".parse::<OutputFormat>(), Err("Invalid format"));
}
