use vstd::prelude::*;
use crate::text::{chars_of, contains_chars, has_substring};

verus! {

/// The user columns (name, type) that older databases may lack.
pub fn missing_user_columns() -> (r: Vec<(&'static str, &'static str)>)
    ensures
        r@.len() == 7,
        r@[0].0@ == "bio"@ && r@[1].0@ == "url1"@ && r@[2].0@ == "url2"@ && r@[3].0@ == "url3"@,
        r@[4].0@ == "location"@ && r@[5].0@ == "profile_pic"@ && r@[6].0@ == "cover_banner"@,
        forall|i: int| 0 <= i < 7 ==> (#[trigger] r@[i]).1@ == "TEXT"@,
{
    let mut r = Vec::new();
    r.push(("bio", "TEXT"));
    r.push(("url1", "TEXT"));
    r.push(("url2", "TEXT"));
    r.push(("url3", "TEXT"));
    r.push(("location", "TEXT"));
    r.push(("profile_pic", "TEXT"));
    r.push(("cover_banner", "TEXT"));
    r
}

/// The statement that adds a column to the users table.
pub fn add_user_column_sql(column: &str, column_type: &str) -> (s: String)
    ensures
        s@ == "ALTER TABLE users ADD COLUMN "@ + column@ + " "@ + column_type@,
{
    let mut s = String::from_str("ALTER TABLE users ADD COLUMN ");
    s.append(column);
    s.append(" ");
    s.append(column_type);
    s
}

/// Whether a failed column addition only found the column already there (the
/// error's text mentions a duplicate column name), which the migration ignores.
pub fn is_duplicate_column_error(message: &str) -> (r: bool)
    ensures
        r == has_substring(message@, "duplicate column name"@),
{
    let hay = chars_of(message);
    let needle = chars_of("duplicate column name");
    contains_chars(&hay, &needle)
}

} // verus!
