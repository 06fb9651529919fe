use nexus_server::content_filter::{is_potential_spam, ContentFilterService, FilterResult, ModerationConfig};
use nexus_server::content_filter_service::ContentFilterService as ChatFilter;

fn config(enabled: bool, limit: usize, words: &[&str], patterns: &[&str]) -> ModerationConfig {
    ModerationConfig {
        auto_moderation_enabled: enabled,
        message_length_limit: limit,
        blocked_words: words.iter().map(|w| w.to_string()).collect(),
        blocked_patterns: patterns.iter().map(|p| p.to_string()).collect(),
    }
}

fn reason(r: &FilterResult) -> Option<(&'static str, String)> {
    match r {
        FilterResult::Allowed => None,
        FilterResult::Blocked { reason } => Some(("blocked", reason.clone())),
        FilterResult::Flagged { reason } => Some(("flagged", reason.clone())),
    }
}

#[test]
fn disabled_moderation_allows_everything() {
    let f = ContentFilterService::new(config(false, 1, &["bad"], &["x+"])).unwrap();
    assert!(matches!(f.filter_message("bad xxx and far too long", 1), FilterResult::Allowed));
    assert!(matches!(f.filter_username("bad"), FilterResult::Allowed));
}

#[test]
fn too_long_message_is_blocked_with_limit_in_reason() {
    let f = ContentFilterService::new(config(true, 10, &[], &[])).unwrap();
    assert_eq!(
        reason(&f.filter_message("12345678901", 1)),
        Some(("blocked", "Message too long. Maximum 10 characters allowed.".to_string()))
    );
    assert!(matches!(f.filter_message("1234567890", 1), FilterResult::Allowed));
    // The limit counts bytes: five two-byte characters exceed a limit of nine.
    let f = ContentFilterService::new(config(true, 9, &[], &[])).unwrap();
    assert!(matches!(f.filter_message("ééééé", 1), FilterResult::Blocked { .. }));
}

#[test]
fn blocked_words_match_ignoring_case() {
    let f = ContentFilterService::new(config(true, 1000, &["BadWord"], &[])).unwrap();
    assert_eq!(
        reason(&f.filter_message("this has a BADWORD inside", 1)),
        Some(("blocked", "Message contains blocked content".to_string()))
    );
    assert_eq!(
        reason(&f.filter_username("xxbadwordxx")),
        Some(("blocked", "Username contains blocked content".to_string()))
    );
    assert!(matches!(f.filter_message("harmless", 1), FilterResult::Allowed));
}

#[test]
fn blocked_patterns_match_with_regex() {
    let f = ContentFilterService::new(config(true, 1000, &[], &["b[a4]d+"])).unwrap();
    assert_eq!(
        reason(&f.filter_message("so b4ddd", 1)),
        Some(("blocked", "Message contains blocked content pattern".to_string()))
    );
    assert_eq!(
        reason(&f.filter_username("bad_user")),
        Some(("blocked", "Username contains blocked content pattern".to_string()))
    );
    assert!(matches!(f.filter_message("bed", 1), FilterResult::Allowed));
}

#[test]
fn words_are_checked_before_patterns() {
    let f = ContentFilterService::new(config(true, 1000, &["evil"], &["evil"])).unwrap();
    assert_eq!(reason(&f.filter_message("evil", 1)).unwrap().1, "Message contains blocked content");
}

#[test]
fn invalid_pattern_refuses_construction() {
    let r = ContentFilterService::new(config(true, 10, &[], &["ok", "(unclosed"]));
    let e = r.err().expect("construction must fail");
    assert!(e.starts_with("Invalid regex pattern '(unclosed': "), "{}", e);
    assert!(e.len() > "Invalid regex pattern '(unclosed': ".len());
}

#[test]
fn update_patterns_keeps_old_on_error() {
    let mut f = ContentFilterService::new(config(true, 1000, &[], &["foo"])).unwrap();
    assert!(f.update_blocked_patterns(vec!["[".to_string()]).is_err());
    assert!(matches!(f.filter_message("foo", 1), FilterResult::Blocked { .. }));
    assert_eq!(f.update_blocked_patterns(vec!["bar".to_string()]), Ok(()));
    assert!(matches!(f.filter_message("foo", 1), FilterResult::Allowed));
    assert!(matches!(f.filter_message("bar", 1), FilterResult::Blocked { .. }));
}

#[test]
fn update_words_replaces_list() {
    let mut f = ContentFilterService::new(config(true, 1000, &["one"], &[])).unwrap();
    f.update_blocked_words(vec!["TWO".to_string()]);
    assert!(matches!(f.filter_message("one", 1), FilterResult::Allowed));
    assert!(matches!(f.filter_message("two", 1), FilterResult::Blocked { .. }));
}

#[test]
fn spam_by_repetition() {
    let text = "spam spam spam spam spam spam spam spam spam spam spam";
    assert!(is_potential_spam(text));
    // Ten words are never enough.
    assert!(!is_potential_spam("spam spam spam spam spam spam spam spam spam spam"));
    // Eleven words over four distinct ones: ratio below three.
    assert!(!is_potential_spam("a b c d a b c d a b c"));
    // Twelve words over three distinct ones: ratio exactly four.
    assert!(is_potential_spam("a b c a b c a b c a b c"));
}

#[test]
fn spam_by_capitals() {
    assert!(is_potential_spam("THIS IS A VERY LOUD MESSAGE INDEED"));
    assert!(!is_potential_spam("This is a calm message with few capitals"));
    // Twenty letters are not enough.
    assert!(!is_potential_spam("ABCDEFGHIJKLMNOPQRST"));
}

#[test]
fn spam_by_special_characters() {
    assert!(is_potential_spam("!!!!!!!!!!!!!!!!!!!!!!!"));
    assert!(!is_potential_spam("!!!!!!!!!!"));
    assert!(!is_potential_spam("hello there, how are you doing today?"));
}

#[test]
fn message_filter_flags_spam_but_chat_filter_does_not() {
    let f = ContentFilterService::new(config(true, 1000, &[], &[])).unwrap();
    assert_eq!(
        reason(&f.filter_message("THIS IS A VERY LOUD MESSAGE INDEED", 1)),
        Some(("flagged", "Message flagged as potential spam".to_string()))
    );
    let g = ChatFilter::new(config(true, 1000, &[], &[])).unwrap();
    assert!(matches!(g.filter_message("THIS IS A VERY LOUD MESSAGE INDEED", 1), FilterResult::Allowed));
    let g = ChatFilter::new(config(true, 3, &["x"], &[])).unwrap();
    assert!(matches!(g.filter_message("abcd", 1), FilterResult::Blocked { .. }));
    assert!(matches!(g.filter_message("X", 1), FilterResult::Blocked { .. }));
    assert!(ChatFilter::new(config(true, 3, &[], &["*"])).is_err());
}
