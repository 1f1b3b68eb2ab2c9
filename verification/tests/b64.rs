use rcli::{
    decode_text, encode_blocks, parse_base64_format, process_decode, process_encode,
    Base64Format, TextError,
};

#[test]
fn test_process_encode() {
    let input = b"[package]\nname = \"rcli\"\n";
    let format = Base64Format::Standard;
    assert_eq!(process_encode(input, format), "W3BhY2thZ2VdCm5hbWUgPSAicmNsaSIK");
}

#[test]
fn test_process_decode() {
    let input = "aGVsbG8h\n";
    let format = Base64Format::UrlSafe;
    assert!(process_decode(input, format).is_ok());
}

#[test]
fn the_two_forms_differ_in_alphabet_and_padding() {
    assert_eq!(process_encode(&[0xfb, 0xff], Base64Format::Standard), "+/8=");
    assert_eq!(process_encode(&[0xfb, 0xff], Base64Format::UrlSafe), "-_8");
    assert_eq!(process_encode(b"hello!", Base64Format::UrlSafe), "aGVsbG8h");
    assert_eq!(process_encode(b"", Base64Format::Standard), "");
    assert_eq!(decode_text(b"aGVsbG8h", Base64Format::Standard), Ok("hello!".to_string()));
    assert_eq!(decode_text(b"aGk=", Base64Format::Standard), Ok("hi".to_string()));
    assert_eq!(decode_text(b"aGk", Base64Format::UrlSafe), Ok("hi".to_string()));
    assert_eq!(decode_text(b"aGk", Base64Format::Standard), Err(TextError::Format));
    assert_eq!(decode_text(b"aGk=", Base64Format::UrlSafe), Err(TextError::Format));
}

#[test]
fn decoding_wants_text_behind_the_base64() {
    assert_eq!(decode_text(b"-_8", Base64Format::UrlSafe), Err(TextError::Format));
    assert_eq!(decode_text(b"w6k", Base64Format::UrlSafe), Ok("\u{e9}".to_string()));
    assert_eq!(decode_text(b"a b", Base64Format::UrlSafe), Err(TextError::Format));
    assert_eq!(decode_text(b"aGk\n", Base64Format::UrlSafe), Err(TextError::Format));
    assert_eq!(decode_text(b"", Base64Format::UrlSafe), Ok(String::new()));
}

#[test]
fn decoding_takes_white_space_off_the_ends_only() {
    assert_eq!(process_decode("aGk\n", Base64Format::UrlSafe), Ok("hi".to_string()));
    assert_eq!(process_decode(" \t aGk=\r\n", Base64Format::Standard), Ok("hi".to_string()));
    assert_eq!(process_decode("\u{a0}aGk\u{3000}", Base64Format::UrlSafe), Ok("hi".to_string()));
    assert_eq!(process_decode("aG k", Base64Format::UrlSafe), Err(TextError::Format));
    assert_eq!(process_decode("  ", Base64Format::UrlSafe), Ok(String::new()));
}

#[test]
fn blocks_are_shown_as_url_safe_text() {
    let blocks = vec![vec![0xfb, 0xff], b"hello!".to_vec(), Vec::new()];
    assert_eq!(encode_blocks(&blocks), vec!["-_8".to_string(), "aGVsbG8h".to_string(), String::new()]);
    assert_eq!(encode_blocks(&Vec::new()), Vec::<String>::new());
}

#[test]
fn base64_forms_have_names() {
    assert_eq!(parse_base64_format("standard"), Ok(Base64Format::Standard));
    assert_eq!(parse_base64_format("urlsafe"), Ok(Base64Format::UrlSafe));
    assert_eq!(parse_base64_format("Standard"), Err("Invalid format"));
    assert_eq!(parse_base64_format(""), Err("Invalid format"));
    assert_eq!("urlsafe".parse::<Base64Format>(), Ok(Base64Format::UrlSafe));
}
