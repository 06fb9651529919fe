use vstd::prelude::*;
use crate::text::{chars_of, is_whitespace, unicode_whitespace};
use argon2::password_hash::{PasswordHasher, PasswordVerifier};

verus! {

/// Shortest password, in characters, that is accepted.
pub const MIN_PASSWORD_LENGTH: usize = 6;

/// A text is blank when it holds nothing but white space (what `str::trim` empties).
pub open spec fn is_blank(s: Seq<char>) -> bool {
    forall|i: int| 0 <= i < s.len() ==> unicode_whitespace(#[trigger] s[i])
}

/// The verdict on a new password: refused when blank, refused when shorter than six
/// characters, else accepted.
pub open spec fn password_verdict(p: Seq<char>) -> Result<(), Seq<char>> {
    if is_blank(p) {
        Err("Password cannot be empty"@)
    } else if p.len() < MIN_PASSWORD_LENGTH {
        Err("Password must be at least 6 characters long"@)
    } else {
        Ok(())
    }
}

fn all_whitespace(s: &Vec<char>) -> (r: bool)
    ensures
        r == is_blank(s@),
{
    let mut i: usize = 0;
    while i < s.len()
        invariant
            i <= s.len(),
            forall|k: int| 0 <= k < i ==> unicode_whitespace(#[trigger] s@[k]),
        decreases s.len() - i,
    {
        if !is_whitespace(s[i]) {
            return false;
        }
        i = i + 1;
    }
    true
}

/// Validate that a password meets the minimum requirements.
pub fn validate_password(password: &str) -> (r: Result<(), String>)
    ensures
        match (r, password_verdict(password@)) {
            (Ok(_), Ok(_)) => true,
            (Err(e), Err(m)) => e@ == m,
            _ => false,
        },
{
    let cs = chars_of(password);
    if all_whitespace(&cs) {
        return Err(String::from_str("Password cannot be empty"));
    }
    if cs.len() < MIN_PASSWORD_LENGTH {
        return Err(String::from_str("Password must be at least 6 characters long"));
    }
    Ok(())
}

/// Whether `argon2` (`PasswordHash::new`, then `Argon2::default().verify_password`)
/// accepts a password against a stored hash text.
pub uninterp spec fn argon2_accepts(hash: Seq<char>, password: Seq<char>) -> bool;

/// Longest password, in bytes, that argon2 hashes (`argon2::MAX_PWD_LEN`).
pub const ARGON2_MAX_PASSWORD_BYTES: usize = 0xFFFF_FFFF;

/// Hashes a password with `Argon2::default().hash_password` and a fresh salt from
/// `OsRng`. The hash depends on the random salt, so nothing is claimed of its text.
/// Claimed: what the argon2 documentation states of a hash it made (the password it
/// was made from verifies against it), and that hashing succeeds for a password of
/// at most `MAX_PWD_LEN` bytes: with the default parameters, a 16-byte generated
/// salt and 32-byte output, the password's length is the one input check that can
/// fail (`Argon2::verify_inputs`).
#[verifier::external_body]
fn argon2_hash(password: &str) -> (r: Result<String, String>)
    ensures
        r matches Ok(h) ==> argon2_accepts(h@, password@),
        vstd::utf8::encode_utf8(password@).len() <= ARGON2_MAX_PASSWORD_BYTES ==> r is Ok,
{
    let salt = argon2::password_hash::SaltString::generate(&mut argon2::password_hash::rand_core::OsRng);
    argon2::Argon2::default().hash_password(password.as_bytes(), &salt).map(|h| h.to_string()).map_err(|e| e.to_string())
}

/// Whether a text opens as a PHC hash string does: it is not empty and starts with `$`.
pub open spec fn phc_framed(s: Seq<char>) -> bool {
    s.len() > 0 && s[0] == '$'
}

/// Checks a password against a stored hash with `argon2`'s `PasswordHash::new` and
/// `Argon2::default().verify_password`. Claimed: the answer is `argon2_accepts` of
/// the hash and the password, and a text that does not open as a PHC string is
/// refused (`PasswordHash::parse` fails on an empty text and on one whose first
/// `$`-separated field is not empty). Which other texts and passwords are refused
/// is left unsaid: that rests on the hash function itself.
#[verifier::external_body]
fn argon2_verify(hash: &str, password: &str) -> (r: bool)
    ensures
        r == argon2_accepts(hash@, password@),
        !phc_framed(hash@) ==> !r,
{
    argon2::password_hash::PasswordHash::new(hash).and_then(
        |parsed| argon2::Argon2::default().verify_password(password.as_bytes(), &parsed),
    ).is_ok()
}

/// Hash a password using Argon2 with a fresh random salt; the password verifies
/// against the hash that comes back. Every password within argon2's length limit is
/// hashed.
pub fn hash_password(password: &str) -> (r: Result<String, String>)
    ensures
        r matches Ok(h) ==> argon2_accepts(h@, password@),
        vstd::utf8::encode_utf8(password@).len() <= ARGON2_MAX_PASSWORD_BYTES ==> r is Ok,
{
    argon2_hash(password)
}

/// Verify a password against its hash; a text that is not a PHC hash string is refused.
pub fn verify_password(hash: &str, password: &str) -> (r: bool)
    ensures
        r == argon2_accepts(hash@, password@),
        !phc_framed(hash@) ==> !r,
{
    argon2_verify(hash, password)
}

/// The refusal of a login with an unknown name or a wrong password.
pub open spec fn invalid_credentials() -> Seq<char> {
    "Invalid credentials"@
}

/// Decide a login: `stored_hash` is the hash stored for the name, absent when no user
/// has that name. Refused unless the user exists and the password verifies.
pub fn check_login(stored_hash: Option<&str>, password: &str) -> (r: Result<(), String>)
    ensures
        r is Ok <==> (stored_hash matches Some(h) && argon2_accepts(h@, password@)),
        (stored_hash matches Some(h) && !phc_framed(h@)) ==> r is Err,
        r matches Err(e) ==> e@ == invalid_credentials(),
{
    match stored_hash {
        None => Err(String::from_str("Invalid credentials")),
        Some(h) => if verify_password(h, password) {
            Ok(())
        } else {
            Err(String::from_str("Invalid credentials"))
        },
    }
}

} // verus!
