use nexus_server::invites::user_color_from_term;
use nexus_server::model::UserRole;
use nexus_server::util::{
    extract_mentions, parse_color, parse_color_cuts_char, parse_role, parse_user_color, role_to_str, TermColor,
};

#[test]
fn named_colors_parse() {
    assert_eq!(parse_color("Red"), TermColor::Red);
    assert_eq!(parse_color("LightMagenta"), TermColor::LightMagenta);
    assert_eq!(parse_color("White"), TermColor::White);
    assert_eq!(parse_color("Reset"), TermColor::Reset);
}

#[test]
fn unknown_colors_reset() {
    assert_eq!(parse_color("red"), TermColor::Reset);
    assert_eq!(parse_color(""), TermColor::Reset);
    assert_eq!(parse_color("#12345"), TermColor::Reset);
    assert_eq!(parse_color("#1234567"), TermColor::Reset);
    assert_eq!(parse_color("#gg0000"), TermColor::Reset);
}

#[test]
fn hex_colors_parse() {
    assert_eq!(parse_color("#ff8000"), TermColor::Rgb(255, 128, 0));
    assert_eq!(parse_color("#0A0b0C"), TermColor::Rgb(10, 11, 12));
    // `from_str_radix` takes a leading plus sign.
    assert_eq!(parse_color("#+f+f+f"), TermColor::Rgb(15, 15, 15));
}

#[test]
fn color_cut_detection() {
    assert!(!parse_color_cuts_char("#ff8000"));
    assert!(!parse_color_cuts_char("Red"));
    // A two-byte character at bytes 2..4 would be cut by the split after byte 3.
    assert!(parse_color_cuts_char("#aé123"));
    // A multi-byte character confined to one pair is not cut; the pair fails to parse.
    assert!(!parse_color_cuts_char("#é1234"));
    assert_eq!(parse_color("#é1234"), TermColor::Reset);
}

#[test]
fn user_color_keeps_text() {
    assert_eq!(parse_user_color("Cyan").0, "Cyan");
    assert_eq!(parse_user_color("#010203").0, "#010203");
}

#[test]
fn term_color_names() {
    assert_eq!(user_color_from_term(TermColor::Green).0, "Green");
    assert_eq!(user_color_from_term(TermColor::Rgb(255, 0, 171)).0, "#ff00ab");
    assert_eq!(user_color_from_term(parse_color("#0a0B0c")).0, "#0a0b0c");
}

#[test]
fn roles_parse_and_print() {
    assert_eq!(parse_role("Admin"), UserRole::Admin);
    assert_eq!(parse_role("Moderator"), UserRole::Moderator);
    assert_eq!(parse_role("User"), UserRole::User);
    assert_eq!(parse_role("admin"), UserRole::User);
    assert_eq!(role_to_str(UserRole::Admin), "Admin");
    assert_eq!(role_to_str(UserRole::Moderator), "Moderator");
    assert_eq!(role_to_str(UserRole::User), "User");
    for r in [UserRole::Admin, UserRole::Moderator, UserRole::User] {
        assert_eq!(parse_role(role_to_str(r)), r);
    }
}

#[test]
fn mentions_are_extracted_in_order() {
    assert_eq!(extract_mentions("hi @alice and @bob_2!"), vec!["alice".to_string(), "bob_2".to_string()]);
    assert_eq!(extract_mentions("no mentions here"), Vec::<String>::new());
    assert_eq!(extract_mentions("@ alone and @"), Vec::<String>::new());
    assert_eq!(extract_mentions("mail@example.com"), vec!["example".to_string()]);
    assert_eq!(extract_mentions("@@x@y"), vec!["x".to_string(), "y".to_string()]);
    assert_eq!(extract_mentions("@é@z"), vec!["z".to_string()]);
}

#[test]
fn hex_texts_read_back_in_either_case() {
    for (r, g, b) in [(0u8, 0u8, 0u8), (255, 255, 255), (1, 128, 254), (171, 205, 239)] {
        assert_eq!(parse_color(&format!("#{:02x}{:02x}{:02x}", r, g, b)), TermColor::Rgb(r, g, b));
        assert_eq!(parse_color(&format!("#{:02X}{:02X}{:02X}", r, g, b)), TermColor::Rgb(r, g, b));
        assert_eq!(user_color_from_term(TermColor::Rgb(r, g, b)).0, format!("#{:02x}{:02x}{:02x}", r, g, b));
    }
}
