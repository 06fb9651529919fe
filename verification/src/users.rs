use vstd::prelude::*;
use crate::text::{to_lowercase, unicode_lowercase};

verus! {

/// User accounts.
pub struct UserService;

/// The color given to newly registered users.
pub const DEFAULT_USER_COLOR: &'static str = "Green";

impl UserService {
    /// The role of a user who registers when `existing_users` accounts exist: the
    /// first user becomes admin.
    pub fn registration_role(existing_users: i64) -> (role: &'static str)
        ensures
            existing_users == 0 ==> role@ == "Admin"@,
            existing_users != 0 ==> role@ == "User"@,
    {
        if existing_users == 0 { "Admin" } else { "User" }
    }

    /// The form of a username under which accounts are looked up: names are compared
    /// ignoring case, so the lower-case form.
    pub fn username_key(username: &str) -> (k: String)
        ensures
            k@ == unicode_lowercase(username@),
    {
        to_lowercase(username)
    }

    /// Decide a registration given how many accounts already use the name (ignoring case).
    pub fn check_username_free(same_name_count: i64) -> (r: Result<(), String>)
        ensures
            r is Ok <==> same_name_count <= 0,
            r matches Err(e) ==> e@ == "Username already taken"@,
    {
        if same_name_count > 0 {
            Err(String::from_str("Username already taken"))
        } else {
            Ok(())
        }
    }
}


/// The parameter list of a query over `n` users: `?` marks separated by commas.
pub open spec fn placeholder_list(n: nat) -> Seq<char>
    decreases n,
{
    if n == 0 {
        Seq::empty()
    } else if n == 1 {
        seq!['?']
    } else {
        placeholder_list((n - 1) as nat) + seq![',', '?']
    }
}

/// The parameter list of a query over `n` users.
pub fn placeholders(n: usize) -> (s: String)
    ensures
        s@ == placeholder_list(n as nat),
{
    let mut s = String::new();
    let mut i: usize = 0;
    while i < n
        invariant
            i <= n,
            s@ == placeholder_list(i as nat),
        decreases n - i,
    {
        if i > 0 {
            crate::text::push_char(&mut s, ',');
        }
        crate::text::push_char(&mut s, '?');
        proof {
            if i > 0 {
                assert(placeholder_list((i + 1) as nat) == placeholder_list(i as nat) + seq![',', '?']);
                assert(s@ =~= placeholder_list((i + 1) as nat));
            } else {
                assert(s@ =~= placeholder_list(1));
            }
        }
        i = i + 1;
    }
    s
}

} // verus!
