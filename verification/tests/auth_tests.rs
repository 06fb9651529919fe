use nexus_server::auth::{check_login, hash_password, validate_password, verify_password};
use nexus_server::users::UserService;

#[test]
fn password_blank_is_refused() {
    assert_eq!(validate_password(""), Err("Password cannot be empty".to_string()));
    assert_eq!(validate_password("        "), Err("Password cannot be empty".to_string()));
    assert_eq!(validate_password("\t\n \u{3000}"), Err("Password cannot be empty".to_string()));
}

#[test]
fn password_too_short_is_refused() {
    assert_eq!(validate_password("abc"), Err("Password must be at least 6 characters long".to_string()));
    assert_eq!(validate_password("abcde"), Err("Password must be at least 6 characters long".to_string()));
    // Length counts characters: three two-byte characters are too few.
    assert_eq!(validate_password("ééé"), Err("Password must be at least 6 characters long".to_string()));
    assert_eq!(validate_password("éééééé"), Ok(()));
}

#[test]
fn password_of_six_is_accepted() {
    assert_eq!(validate_password("abcdef"), Ok(()));
    assert_eq!(validate_password("  ab  "), Ok(()));
}

#[test]
fn hash_then_verify_round_trip() {
    let h = hash_password("correct horse").expect("hashing succeeds");
    assert_ne!(h, "correct horse");
    assert!(h.starts_with("$argon2"));
    assert!(verify_password(&h, "correct horse"));
    assert!(!verify_password(&h, "wrong horse"));
}

#[test]
fn hashes_are_salted() {
    let a = hash_password("same").unwrap();
    let b = hash_password("same").unwrap();
    assert_ne!(a, b);
    assert!(verify_password(&a, "same"));
    assert!(verify_password(&b, "same"));
}

#[test]
fn verify_rejects_malformed_hash() {
    assert!(!verify_password("not a hash", "anything"));
    assert!(!verify_password("", ""));
}

#[test]
fn verify_rejects_text_with_leading_field_or_bad_fields() {
    let h = hash_password("pw123456").unwrap();
    let prefixed = format!("x{}", h);
    assert!(!verify_password(&prefixed, "pw123456"));
    assert!(!verify_password("$argon2id$v=19$not-params", "pw123456"));
    assert_eq!(check_login(Some("plain"), "plain"), Err("Invalid credentials".to_string()));
}

#[test]
fn login_decisions() {
    let h = hash_password("s3cret!").unwrap();
    assert_eq!(check_login(Some(&h), "s3cret!"), Ok(()));
    assert_eq!(check_login(Some(&h), "guess"), Err("Invalid credentials".to_string()));
    assert_eq!(check_login(None, "s3cret!"), Err("Invalid credentials".to_string()));
}

#[test]
fn first_user_becomes_admin() {
    assert_eq!(UserService::registration_role(0), "Admin");
    assert_eq!(UserService::registration_role(1), "User");
    assert_eq!(UserService::registration_role(57), "User");
}

#[test]
fn username_taken_check() {
    assert_eq!(UserService::check_username_free(0), Ok(()));
    assert_eq!(UserService::check_username_free(1), Err("Username already taken".to_string()));
}

#[test]
fn usernames_are_keyed_by_lower_case() {
    assert_eq!(UserService::username_key("NeO"), "neo");
    assert_eq!(UserService::username_key("ÄBC"), "äbc");
    assert_eq!(UserService::username_key("already"), "already");
}
