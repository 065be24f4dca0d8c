use sign_cmd::errors::Error;
use sign_cmd::resolve::{resolve_message, resolve_password, resolve_uri, trim_end_whitespace};

#[test]
fn message_from_flag_plain() {
    let r = resolve_message(Some("hello".to_string()), false, None);
    assert_eq!(r, Ok(b"hello".to_vec()));
}

#[test]
fn message_from_flag_hex() {
    let r = resolve_message(Some("48656c6c6f".to_string()), true, None);
    assert_eq!(r, Ok(b"Hello".to_vec()));
}

#[test]
fn message_from_flag_bad_hex() {
    let r = resolve_message(Some("nothex!!".to_string()), true, None);
    assert_eq!(r, Err(Error::InvalidInput));
}

#[test]
fn message_from_stdin() {
    let r = resolve_message(None, false, Some(b"piped".to_vec()));
    assert_eq!(r, Ok(b"piped".to_vec()));
}

#[test]
fn message_from_stdin_hex() {
    let r = resolve_message(None, true, Some(b"00FF".to_vec()));
    assert_eq!(r, Ok(vec![0x00, 0xff]));
}

#[test]
fn message_without_source_is_io_error() {
    let r = resolve_message(None, false, None);
    assert_eq!(r, Err(Error::IoError));
}

#[test]
fn uri_from_flag() {
    let r = resolve_uri(Some("//Bob".to_string()), None, None);
    assert_eq!(r, Ok("//Bob".to_string()));
}

#[test]
fn uri_from_file_contents_is_trimmed() {
    let r = resolve_uri(Some("/some/path".to_string()), Some("//Bob\n".to_string()), None);
    assert_eq!(r, Ok("//Bob".to_string()));
}

#[test]
fn uri_from_prompt() {
    let r = resolve_uri(None, None, Some("//Charlie".to_string()));
    assert_eq!(r, Ok("//Charlie".to_string()));
}

#[test]
fn empty_prompted_uri_is_invalid_input() {
    let r = resolve_uri(None, None, Some(String::new()));
    assert_eq!(r, Err(Error::InvalidInput));
}

#[test]
fn failed_uri_prompt_is_prompt_error() {
    let r = resolve_uri(None, None, None);
    assert_eq!(r, Err(Error::PromptError));
}

#[test]
fn password_defaults_to_empty() {
    let r = resolve_password(None, false, None);
    assert_eq!(r, Ok(String::new()));
}

#[test]
fn password_from_configuration() {
    let r = resolve_password(Some("secret".to_string()), false, None);
    assert_eq!(r, Ok("secret".to_string()));
}

#[test]
fn password_from_prompt_when_interactive() {
    let r = resolve_password(Some("ignored".to_string()), true, Some("typed".to_string()));
    assert_eq!(r, Ok("typed".to_string()));
}

#[test]
fn failed_password_prompt_is_prompt_error() {
    let r = resolve_password(None, true, None);
    assert_eq!(r, Err(Error::PromptError));
}

#[test]
fn trim_end_whitespace_cases() {
    assert_eq!(trim_end_whitespace("a b \n\t "), "a b".to_string());
    assert_eq!(trim_end_whitespace(""), String::new());
    assert_eq!(trim_end_whitespace("\r\n"), String::new());
    assert_eq!(trim_end_whitespace("  x"), "  x".to_string());
}
