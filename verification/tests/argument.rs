use rcli::{is_standard_input, verify_file, verify_input_file, verify_path};

#[test]
fn test_verify_input_file() {
    assert_eq!(verify_file("-", false), Ok("-".into()));
    assert_eq!(verify_file("*", false), Err("File does not exist"));
    assert_eq!(verify_file("Cargo.toml", true), Ok("Cargo.toml".into()));
    assert_eq!(verify_file("non-exist", false), Err("File does not exist"));
}

#[test]
fn hyphen_stands_for_standard_input_whatever_exists() {
    assert!(is_standard_input("-"));
    assert!(!is_standard_input(""));
    assert!(!is_standard_input("--"));
    assert!(!is_standard_input("- "));
    assert_eq!(verify_file("-", true), Ok("-".to_string()));
    assert_eq!(verify_file("--", false), Err("File does not exist"));
    assert_eq!(verify_file("", false), Err("File does not exist"));
    assert_eq!(verify_file("", true), Ok(String::new()));
}

#[test]
fn input_file_has_no_name_for_standard_input() {
    assert_eq!(verify_input_file("-", false), Err("File does not exists"));
    assert_eq!(verify_input_file("-", true), Ok("-".to_string()));
    assert_eq!(verify_input_file("a.csv", true), Ok("a.csv".to_string()));
    assert_eq!(verify_input_file("non-exist", false), Err("File does not exists"));
}

#[test]
fn path_has_to_be_a_directory() {
    assert_eq!(verify_path("out", true, true), Ok("out".to_string()));
    assert_eq!(verify_path("out", true, false), Err("Path does not exist or is not a directory"));
    assert_eq!(verify_path("out", false, false), Err("Path does not exist or is not a directory"));
    assert_eq!(verify_path("out", false, true), Err("Path does not exist or is not a directory"));
}
