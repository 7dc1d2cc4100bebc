use base64::engine::general_purpose::URL_SAFE_NO_PAD;
use base64::Engine;

use cursor_watch::token::{decode_identity, payload_segment, BaseDir, Platform, TokenExtractor};

fn make_token(payload_json: &str) -> String {
    let payload = URL_SAFE_NO_PAD.encode(payload_json.as_bytes());
    format!("header.{}.signature", payload)
}

#[test]
fn identity_with_delimiter() {
    let token = make_token(r#"{"sub":"abc|def"}"#);
    assert_eq!(decode_identity(&token), Some("def".to_string()));
}

#[test]
fn identity_without_delimiter() {
    let token = make_token(r#"{"sub":"xyz"}"#);
    assert_eq!(decode_identity(&token), Some("xyz".to_string()));
}

#[test]
fn identity_keeps_everything_after_first_delimiter() {
    let token = make_token(r#"{"sub":"auth0|user|123"}"#);
    assert_eq!(decode_identity(&token), Some("user|123".to_string()));
}

#[test]
fn token_without_dots_is_rejected() {
    assert_eq!(decode_identity("abc"), None);
}

#[test]
fn token_with_one_dot_is_rejected() {
    assert_eq!(decode_identity("a.b"), None);
}

#[test]
fn token_with_three_dots_is_rejected() {
    assert_eq!(decode_identity("a.b.c.d"), None);
}

#[test]
fn payload_that_is_not_base64_is_rejected() {
    assert_eq!(decode_identity("a.!!!.c"), None);
}

#[test]
fn payload_that_is_not_json_is_rejected() {
    let payload = URL_SAFE_NO_PAD.encode(b"not json at all");
    let token = format!("a.{}.c", payload);
    assert_eq!(decode_identity(&token), None);
}

#[test]
fn payload_without_sub_is_rejected() {
    let token = make_token(r#"{"email":"a@b.c"}"#);
    assert_eq!(decode_identity(&token), None);
}

#[test]
fn payload_with_non_string_sub_is_rejected() {
    let token = make_token(r#"{"sub":42}"#);
    assert_eq!(decode_identity(&token), None);
}

#[test]
fn payload_segment_is_the_middle_one() {
    assert_eq!(payload_segment("head.middle.tail"), Some("middle"));
    assert_eq!(payload_segment("no dots here"), None);
    assert_eq!(payload_segment("a.b.c.d"), None);
}

#[test]
fn db_path_components_per_platform() {
    let mac = TokenExtractor::db_path_components(Platform::MacOs);
    assert_eq!(
        mac,
        vec![
            "Library",
            "Application Support",
            "Cursor",
            "User",
            "globalStorage",
            "state.vscdb"
        ]
    );
    let win = TokenExtractor::db_path_components(Platform::Windows);
    assert_eq!(win, vec!["Cursor", "User", "globalStorage", "state.vscdb"]);
    let linux = TokenExtractor::db_path_components(Platform::Linux);
    assert_eq!(linux, vec![".cursor", "User", "globalStorage", "state.vscdb"]);
}

#[test]
fn db_base_dir_per_platform() {
    assert_eq!(TokenExtractor::db_base_dir(Platform::Windows), BaseDir::LocalData);
    assert_eq!(TokenExtractor::db_base_dir(Platform::MacOs), BaseDir::Home);
    assert_eq!(TokenExtractor::db_base_dir(Platform::Linux), BaseDir::Home);
}

#[test]
fn token_key_names_the_stored_row() {
    assert_eq!(TokenExtractor::token_key(), "cursorAuth/accessToken");
}
