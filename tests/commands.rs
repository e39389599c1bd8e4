use kaixu_helper::presence::{PresenceState, PresenceStatus};
use kaixu_helper::roster::{add_account, added_text, roster, roster_line, AccountError};
use kaixu_helper::rule::{replies_for, ReplyRule};

fn rule(kind: &str, rule: &str, reply: &str) -> ReplyRule {
    ReplyRule { rule_type: kind.to_string(), rule: rule.to_string(), reply: reply.to_string() }
}

#[test]
fn regex_rule() {
    let r = rule("content_regex", r"^hel+o\b", "hi");
    assert!(r.check("hello there", "x", "1"));
    assert!(!r.check("say hello", "x", "1"));
    let bad = rule("content_regex", "(unclosed", "hi");
    assert!(!bad.check("(unclosed", "x", "1"));
}

#[test]
fn author_rules() {
    assert!(rule("author_name", "bob", "yo").check("anything", "bob", "5"));
    assert!(!rule("author_name", "bob", "yo").check("anything", "bobby", "5"));
    assert!(rule("author_id", "42", "yo").check("", "bob", "42"));
    assert!(!rule("author_id", "42", "yo").check("", "bob", "421"));
    assert!(!rule("nickname", "bob", "yo").check("", "bob", "42"));
}

#[test]
fn replies_in_rule_order() {
    let rules = vec![
        rule("author_name", "bob", "first"),
        rule("content_regex", "ping", "pong"),
        rule("author_id", "9", "never"),
    ];
    let r = replies_for(&rules, "ping!", "bob", "1", false);
    assert_eq!(r, vec!["first".to_string(), "pong".to_string()]);
    assert!(replies_for(&rules, "ping!", "bob", "1", true).is_empty());
}

#[test]
fn adding_accounts() {
    let mut ids = vec![1u64];
    assert_eq!(add_account(&mut ids, "76561198000000000"), Ok(76561198000000000));
    assert_eq!(ids, vec![1, 76561198000000000]);
    assert_eq!(add_account(&mut ids, "abc"), Err(AccountError::InvalidId));
    assert_eq!(add_account(&mut ids, ""), Err(AccountError::InvalidId));
    assert_eq!(add_account(&mut ids, "18446744073709551616"), Err(AccountError::InvalidId));
    assert_eq!(ids.len(), 2);
    assert_eq!(added_text("12"), "Added 12 to the list");
}

#[test]
fn roster_lines() {
    let a = PresenceState { profile_name: "A".to_string(), activity: Some("Chess".to_string()), status: PresenceStatus::Online };
    let b = PresenceState { profile_name: "B".to_string(), activity: None, status: PresenceStatus::Away };
    assert_eq!(roster_line(&a), "A: Chess");
    assert_eq!(roster(&vec![a, b]), "A: Chess\nB: None");
    assert_eq!(roster(&vec![]), "");
}
