use sign_cmd::cmd::{HostInput, SharedParams, SignCmd};
use sign_cmd::errors::Error;
use sign_cmd::hexcode::hex_decode;
use sign_cmd::signer::{public_with_scheme, sign_with_scheme, verify_with_scheme, CryptoScheme};

fn cmd(suri: Option<&str>, message: Option<&str>, hex: bool, scheme: CryptoScheme) -> SignCmd {
    SignCmd {
        suri: suri.map(|s| s.to_string()),
        message: message.map(|s| s.to_string()),
        hex,
        shared_params: SharedParams { scheme, password: None, password_interactive: false },
    }
}

fn no_host() -> HostInput {
    HostInput { stdin: None, suri_file: None, prompted_suri: None, prompted_password: None }
}

#[test]
fn alice_hello_matches_recorded_vector() {
    let line = cmd(Some("//Alice"), Some("hello"), false, CryptoScheme::Ed25519)
        .run(no_host())
        .unwrap();
    assert_eq!(
        line,
        "0a29d0da25c55bbde882a556ce7d1ffbfef109d4e69141de17e1652a4e5787c5b6901c8de33f58b929ac5d7fddda06bcd85aef94559e015242e9059ba26f3b08"
    );
}

#[test]
fn run_is_reproducible_for_deterministic_scheme() {
    let a = cmd(Some("//Alice"), Some("hello"), false, CryptoScheme::Ed25519).run(no_host());
    let b = cmd(Some("//Alice"), Some("hello"), false, CryptoScheme::Ed25519).run(no_host());
    assert_eq!(a, b);
}

#[test]
fn run_signs_stdin_byte_for_byte() {
    let piped = b"piped\x00bytes\xffexactly".to_vec();
    let host = HostInput { stdin: Some(piped.clone()), ..no_host() };
    let line = cmd(Some("//Alice"), None, false, CryptoScheme::Ed25519).run(host).unwrap();
    let direct = sign_with_scheme(CryptoScheme::Ed25519, "//Alice", "", &piped).unwrap();
    assert_eq!(hex_decode(line.as_bytes()).unwrap(), direct);
}

#[test]
fn suri_file_behaves_like_direct_flag() {
    let host = HostInput { suri_file: Some("//Bob\n".to_string()), ..no_host() };
    let via_file =
        cmd(Some("/tmp/key"), Some("hello"), false, CryptoScheme::Ed25519).run(host).unwrap();
    let direct =
        cmd(Some("//Bob"), Some("hello"), false, CryptoScheme::Ed25519).run(no_host()).unwrap();
    assert_eq!(via_file, direct);
}

#[test]
fn prompted_suri_behaves_like_direct_flag() {
    let host = HostInput { prompted_suri: Some("//Alice".to_string()), ..no_host() };
    let prompted = cmd(None, Some("hello"), false, CryptoScheme::Ed25519).run(host).unwrap();
    let direct =
        cmd(Some("//Alice"), Some("hello"), false, CryptoScheme::Ed25519).run(no_host()).unwrap();
    assert_eq!(prompted, direct);
}

#[test]
fn hex_message_signs_decoded_bytes() {
    let line = cmd(Some("//Alice"), Some("DEADbeef"), true, CryptoScheme::Ed25519)
        .run(no_host())
        .unwrap();
    let direct =
        sign_with_scheme(CryptoScheme::Ed25519, "//Alice", "", &[0xde, 0xad, 0xbe, 0xef]).unwrap();
    assert_eq!(hex_decode(line.as_bytes()).unwrap(), direct);
}

#[test]
fn bad_hex_message_fails_without_output() {
    let r = cmd(Some("//Alice"), Some("nothex!!"), true, CryptoScheme::Ed25519).run(no_host());
    assert_eq!(r, Err(Error::InvalidInput));
}

#[test]
fn empty_message_yields_verifiable_signature() {
    let line = cmd(Some("//Alice"), Some(""), false, CryptoScheme::Ed25519).run(no_host()).unwrap();
    let sig = hex_decode(line.as_bytes()).unwrap();
    let pubkey = public_with_scheme(CryptoScheme::Ed25519, "//Alice", "").unwrap();
    assert!(verify_with_scheme(CryptoScheme::Ed25519, &pubkey, b"", &sig));
}

#[test]
fn output_verifies_for_every_scheme() {
    for scheme in [CryptoScheme::Ed25519, CryptoScheme::Sr25519, CryptoScheme::Ecdsa] {
        let line = cmd(Some("//Alice"), Some("hello"), false, scheme).run(no_host()).unwrap();
        let sig = hex_decode(line.as_bytes()).unwrap();
        let pubkey = public_with_scheme(scheme, "//Alice", "").unwrap();
        assert!(verify_with_scheme(scheme, &pubkey, b"hello", &sig));
    }
}

#[test]
fn missing_message_and_stdin_is_io_error() {
    let r = cmd(Some("//Alice"), None, false, CryptoScheme::Ed25519).run(no_host());
    assert_eq!(r, Err(Error::IoError));
}

#[test]
fn missing_suri_and_prompt_is_prompt_error() {
    let r = cmd(None, Some("hello"), false, CryptoScheme::Ed25519).run(no_host());
    assert_eq!(r, Err(Error::PromptError));
}

#[test]
fn invalid_suri_is_invalid_secret_from_run() {
    let r = cmd(Some("0xzz"), Some("hello"), false, CryptoScheme::Ed25519).run(no_host());
    assert_eq!(r, Err(Error::InvalidSecret));
}

#[test]
fn configured_password_equals_prompted_password() {
    let flagged = SignCmd {
        suri: Some("//Alice".to_string()),
        message: Some("hello".to_string()),
        hex: false,
        shared_params: SharedParams {
            scheme: CryptoScheme::Ed25519,
            password: Some("pw".to_string()),
            password_interactive: false,
        },
    }
    .run(no_host())
    .unwrap();
    let prompted = SignCmd {
        suri: Some("//Alice".to_string()),
        message: Some("hello".to_string()),
        hex: false,
        shared_params: SharedParams {
            scheme: CryptoScheme::Ed25519,
            password: None,
            password_interactive: true,
        },
    }
    .run(HostInput { prompted_password: Some("pw".to_string()), ..no_host() })
    .unwrap();
    assert_eq!(flagged, prompted);
    let without_pw =
        cmd(Some("//Alice"), Some("hello"), false, CryptoScheme::Ed25519).run(no_host()).unwrap();
    assert_ne!(flagged, without_pw);
}
