use p2p_chat::text::{enclose, join, text_eq};
use p2p_chat::wire::SendOutcome;
use p2p_chat::cipher::{CipherError, CipherErrorKind};

#[test]
fn text_eq_compares_characters() {
    assert!(text_eq("", ""));
    assert!(text_eq("abc", "abc"));
    assert!(text_eq("héllo ✓", "héllo ✓"));
    assert!(!text_eq("abc", "abd"));
    assert!(!text_eq("abc", "ab"));
    assert!(!text_eq("ab", "abc"));
    assert!(!text_eq("abc", "Abc"));
    assert!(!text_eq("", " "));
}

#[test]
fn join_puts_tail_after_head() {
    assert_eq!(join("inbox-", "Q"), "inbox-Q");
    assert_eq!(join("", "Q"), "Q");
    assert_eq!(join("inbox-", ""), "inbox-");
}

#[test]
fn enclose_wraps_the_body() {
    assert_eq!(enclose("(Encrypted: ", "abc", ")"), "(Encrypted: abc)");
    assert_eq!(enclose("", "", ""), "");
    assert_eq!(enclose("<", "", ">"), "<>");
}

#[test]
fn failed_outcome_reports_its_detail() {
    let outcome = SendOutcome::Failed {
        error: CipherError { kind: CipherErrorKind::Encryption, detail: "aead::Error".to_string() },
    };
    assert_eq!(outcome.user_error().unwrap(), "aead::Error");
}
