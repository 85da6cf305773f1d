use openvhost_commands::error::IpcError;
use openvhost_commands::sites::site_not_found;
use openvhost_commands::text::{contains_str, nonblank_or_exec, str_eq, trim_text};

#[test]
fn an_unknown_site_id_is_named_in_the_refusal() {
    match site_not_found("01HX") {
        IpcError::Core { message } => assert_eq!(message, "site 01HX not found"),
        other => panic!("expected Core, got {other:?}"),
    }
}

#[test]
fn text_helpers_agree_with_str() {
    assert_eq!(trim_text("  a b \n"), "a b");
    assert_eq!(trim_text("\u{3000}x\t"), "x");
    assert!(contains_str("abc", ""));
    assert!(contains_str("abc", "bc"));
    assert!(!contains_str("abc", "cb"));
    assert!(str_eq("é", "é"));
    assert!(!str_eq("a", "ab"));
    assert_eq!(nonblank_or_exec("  ".to_string(), "fallback"), "fallback");
    assert_eq!(nonblank_or_exec(" x ".to_string(), "fallback"), " x ");
}
