use vstd::prelude::*;
use crate::model::{UserColor, UserRole};
use crate::text::{chars_of, same_text, string_of_chars};

verus! {

/// A terminal color.
#[derive(Debug, Clone, Copy, PartialEq, Eq, Structural)]
pub enum TermColor {
    Reset,
    Black,
    Red,
    Green,
    Yellow,
    Blue,
    Magenta,
    Cyan,
    Gray,
    DarkGray,
    LightRed,
    LightGreen,
    LightYellow,
    LightBlue,
    LightMagenta,
    LightCyan,
    White,
    Rgb(u8, u8, u8),
}

/// The color a color name stands for, if it is one of the named colors.
pub open spec fn named_color(t: Seq<char>) -> Option<TermColor> {
    if t == "Reset"@ { Some(TermColor::Reset) }
    else if t == "Black"@ { Some(TermColor::Black) }
    else if t == "Red"@ { Some(TermColor::Red) }
    else if t == "Green"@ { Some(TermColor::Green) }
    else if t == "Yellow"@ { Some(TermColor::Yellow) }
    else if t == "Blue"@ { Some(TermColor::Blue) }
    else if t == "Magenta"@ { Some(TermColor::Magenta) }
    else if t == "Cyan"@ { Some(TermColor::Cyan) }
    else if t == "Gray"@ { Some(TermColor::Gray) }
    else if t == "DarkGray"@ { Some(TermColor::DarkGray) }
    else if t == "LightRed"@ { Some(TermColor::LightRed) }
    else if t == "LightGreen"@ { Some(TermColor::LightGreen) }
    else if t == "LightYellow"@ { Some(TermColor::LightYellow) }
    else if t == "LightBlue"@ { Some(TermColor::LightBlue) }
    else if t == "LightMagenta"@ { Some(TermColor::LightMagenta) }
    else if t == "LightCyan"@ { Some(TermColor::LightCyan) }
    else if t == "White"@ { Some(TermColor::White) }
    else { None }
}

/// The value of a hexadecimal digit byte (`0-9`, `a-f`, `A-F`).
pub open spec fn hex_digit_value(b: u8) -> Option<u8> {
    if 48 <= b <= 57 { Some((b - 48) as u8) }
    else if 97 <= b <= 102 { Some((b - 87) as u8) }
    else if 65 <= b <= 70 { Some((b - 55) as u8) }
    else { None }
}

/// What `u8::from_str_radix(_, 16)` gives for a two-byte text: an optional `+`
/// sign followed by one digit, or two hexadecimal digits.
pub open spec fn hex_pair(b0: u8, b1: u8) -> Option<u8> {
    if b0 == 43 {
        hex_digit_value(b1)
    } else {
        match (hex_digit_value(b0), hex_digit_value(b1)) {
            (Some(h), Some(l)) => Some((16 * h + l) as u8),
            _ => None,
        }
    }
}

/// Whether a color text has the `#rrggbb` shape: seven bytes, the first `#`.
pub open spec fn is_hex_form(b: Seq<u8>) -> bool {
    b.len() == 7 && b[0] == 35
}

/// The color that a text names: one of the named colors, `#rrggbb` in hexadecimal,
/// else `Reset`.
pub open spec fn color_of(t: Seq<char>, b: Seq<u8>) -> TermColor {
    match named_color(t) {
        Some(c) => c,
        None => if is_hex_form(b) {
            match (hex_pair(b[1], b[2]), hex_pair(b[3], b[4]), hex_pair(b[5], b[6])) {
                (Some(r), Some(g), Some(bl)) => TermColor::Rgb(r, g, bl),
                _ => TermColor::Reset,
            }
        } else {
            TermColor::Reset
        },
    }
}

/// Whether parsing a color text would cut a character in two: a `#rrggbb`-shaped
/// text whose red or green part ends inside a multi-byte character.
pub open spec fn color_parse_cuts_char(t: Seq<char>, b: Seq<u8>) -> bool {
    &&& named_color(t).is_none()
    &&& is_hex_form(b)
    &&& (vstd::utf8::is_continuation_byte(b[3]) || (hex_pair(b[1], b[2]).is_some()
        && vstd::utf8::is_continuation_byte(b[5])))
}

fn hex_digit(b: u8) -> (r: Option<u8>)
    ensures
        r == hex_digit_value(b),
{
    if 48 <= b && b <= 57 {
        Some(b - 48)
    } else if 97 <= b && b <= 102 {
        Some(b - 87)
    } else if 65 <= b && b <= 70 {
        Some(b - 55)
    } else {
        None
    }
}

fn parse_hex_pair(b0: u8, b1: u8) -> (r: Option<u8>)
    ensures
        r == hex_pair(b0, b1),
{
    if b0 == 43 {
        hex_digit(b1)
    } else {
        match (hex_digit(b0), hex_digit(b1)) {
            (Some(h), Some(l)) => Some(16 * h + l),
            _ => None,
        }
    }
}

fn named(color_str: &str) -> (r: Option<TermColor>)
    ensures
        r == named_color(color_str@),
{
    if same_text(color_str, "Reset") { Some(TermColor::Reset) }
    else if same_text(color_str, "Black") { Some(TermColor::Black) }
    else if same_text(color_str, "Red") { Some(TermColor::Red) }
    else if same_text(color_str, "Green") { Some(TermColor::Green) }
    else if same_text(color_str, "Yellow") { Some(TermColor::Yellow) }
    else if same_text(color_str, "Blue") { Some(TermColor::Blue) }
    else if same_text(color_str, "Magenta") { Some(TermColor::Magenta) }
    else if same_text(color_str, "Cyan") { Some(TermColor::Cyan) }
    else if same_text(color_str, "Gray") { Some(TermColor::Gray) }
    else if same_text(color_str, "DarkGray") { Some(TermColor::DarkGray) }
    else if same_text(color_str, "LightRed") { Some(TermColor::LightRed) }
    else if same_text(color_str, "LightGreen") { Some(TermColor::LightGreen) }
    else if same_text(color_str, "LightYellow") { Some(TermColor::LightYellow) }
    else if same_text(color_str, "LightBlue") { Some(TermColor::LightBlue) }
    else if same_text(color_str, "LightMagenta") { Some(TermColor::LightMagenta) }
    else if same_text(color_str, "LightCyan") { Some(TermColor::LightCyan) }
    else if same_text(color_str, "White") { Some(TermColor::White) }
    else { None }
}

/// Whether `parse_color` would cut a character of this text in two (see
/// `color_parse_cuts_char`).
pub fn parse_color_cuts_char(color_str: &str) -> (r: bool)
    ensures
        r == color_parse_cuts_char(color_str@, vstd::utf8::encode_utf8(color_str@)),
{
    if named(color_str).is_some() {
        return false;
    }
    let b = color_str.as_bytes();
    if !(b.len() == 7 && b[0] == 35) {
        return false;
    }
    let cont3 = 128 <= b[3] && b[3] <= 191;
    let cont5 = 128 <= b[5] && b[5] <= 191;
    cont3 || (parse_hex_pair(b[1], b[2]).is_some() && cont5)
}

/// Parses a color from a string: a named color, `#rrggbb`, or `Reset`.
pub fn parse_color(color_str: &str) -> (c: TermColor)
    requires
        !color_parse_cuts_char(color_str@, vstd::utf8::encode_utf8(color_str@)),
    ensures
        c == color_of(color_str@, vstd::utf8::encode_utf8(color_str@)),
{
    if let Some(c) = named(color_str) {
        return c;
    }
    let b = color_str.as_bytes();
    if b.len() == 7 && b[0] == 35 {
        if let Some(r) = parse_hex_pair(b[1], b[2]) {
            if let Some(g) = parse_hex_pair(b[3], b[4]) {
                if let Some(bl) = parse_hex_pair(b[5], b[6]) {
                    return TermColor::Rgb(r, g, bl);
                }
            }
        }
        TermColor::Reset
    } else {
        TermColor::Reset
    }
}

/// The user color for a color text.
pub fn parse_user_color(color_str: &str) -> (c: UserColor)
    ensures
        c.0@ == color_str@,
{
    UserColor(String::from_str(color_str))
}

/// The role that a role name stands for: `Admin`, `Moderator`, else `User`.
pub open spec fn role_of(t: Seq<char>) -> UserRole {
    if t == "Admin"@ {
        UserRole::Admin
    } else if t == "Moderator"@ {
        UserRole::Moderator
    } else {
        UserRole::User
    }
}

/// Parses a user role from a string.
pub fn parse_role(role_str: &str) -> (r: UserRole)
    ensures
        r == role_of(role_str@),
{
    if same_text(role_str, "Admin") {
        UserRole::Admin
    } else if same_text(role_str, "Moderator") {
        UserRole::Moderator
    } else {
        UserRole::User
    }
}

/// The name under which a role is stored.
pub open spec fn role_name(r: UserRole) -> Seq<char> {
    match r {
        UserRole::Admin => "Admin"@,
        UserRole::Moderator => "Moderator"@,
        UserRole::User => "User"@,
    }
}

/// The name under which a role is stored.
pub fn role_to_str(r: UserRole) -> (s: &'static str)
    ensures
        s@ == role_name(r),
{
    match r {
        UserRole::Admin => "Admin",
        UserRole::Moderator => "Moderator",
        UserRole::User => "User",
    }
}

/// Storing a role by its name and reading the name back gives the same role.
pub proof fn lemma_role_round_trip(r: UserRole)
    ensures
        role_of(role_name(r)) == r,
{
    reveal_strlit("Admin");
    reveal_strlit("Moderator");
    reveal_strlit("User");
    assert("Moderator"@.len() != "Admin"@.len());
    assert("User"@.len() != "Admin"@.len());
    assert("User"@.len() != "Moderator"@.len());
}

/// Whether a character may be part of a mentioned name (`[a-zA-Z0-9_]`).
pub open spec fn is_name_char(c: char) -> bool {
    ('a' <= c && c <= 'z') || ('A' <= c && c <= 'Z') || ('0' <= c && c <= '9') || c == '_'
}

/// Where the run of name characters that starts at `j` ends.
pub open spec fn name_end(s: Seq<char>, j: int) -> int
    decreases s.len() - j,
{
    if 0 <= j < s.len() && is_name_char(s[j]) { name_end(s, j + 1) } else { j }
}

/// The names mentioned in a text from position `i` on: each `@` followed by at least
/// one name character mentions the longest run of name characters after it, and
/// the search goes on after that run.
pub open spec fn mentions_from(s: Seq<char>, i: int) -> Seq<Seq<char>>
    decreases s.len() - i,
{
    if i < 0 || i >= s.len() {
        Seq::empty()
    } else if s[i] == '@' && i + 1 < s.len() && is_name_char(s[i + 1]) {
        let e = name_end(s, i + 1);
        if i + 1 < e <= s.len() {
            seq![s.subrange(i + 1, e)] + mentions_from(s, e)
        } else {
            Seq::empty()
        }
    } else {
        mentions_from(s, i + 1)
    }
}

proof fn lemma_name_end_bounds(s: Seq<char>, j: int)
    requires
        0 <= j <= s.len(),
    ensures
        j <= name_end(s, j) <= s.len(),
        forall|k: int| j <= k < name_end(s, j) ==> is_name_char(#[trigger] s[k]),
        name_end(s, j) < s.len() ==> !is_name_char(s[name_end(s, j)]),
    decreases s.len() - j,
{
    if j < s.len() && is_name_char(s[j]) {
        lemma_name_end_bounds(s, j + 1);
    }
}

fn char_is_name(c: char) -> (r: bool)
    ensures
        r == is_name_char(c),
{
    ('a' <= c && c <= 'z') || ('A' <= c && c <= 'Z') || ('0' <= c && c <= '9') || c == '_'
}

/// Whether a text is a name that a mention can carry: non-empty, of name characters only.
pub open spec fn is_mention_name(t: Seq<char>) -> bool {
    t.len() > 0 && forall|k: int| 0 <= k < t.len() ==> is_name_char(#[trigger] t[k])
}

/// Every mention found in a text is a non-empty run of name characters that follows
/// an `@` in the text.
pub proof fn lemma_mentions_are_names(s: Seq<char>, i: int)
    requires
        0 <= i,
    ensures
        forall|m: int| 0 <= m < mentions_from(s, i).len() ==> {
            &&& is_mention_name(#[trigger] mentions_from(s, i)[m])
            &&& exists|p: int| i <= p && p + 1 + mentions_from(s, i)[m].len() <= s.len() && s[p] == '@'
                && s.subrange(p + 1, p + 1 + mentions_from(s, i)[m].len()) == mentions_from(s, i)[m]
        },
    decreases s.len() - i,
{
    if i < s.len() {
        if s[i] == '@' && i + 1 < s.len() && is_name_char(s[i + 1]) {
            let e = name_end(s, i + 1);
            lemma_name_end_bounds(s, i + 1);
            if i + 1 < e <= s.len() {
                lemma_mentions_are_names(s, e);
                let head = s.subrange(i + 1, e);
                let rest = mentions_from(s, e);
                assert(mentions_from(s, i) == seq![head] + rest);
                assert forall|m: int| 0 <= m < mentions_from(s, i).len() implies {
                    &&& is_mention_name(#[trigger] mentions_from(s, i)[m])
                    &&& exists|p: int| i <= p && p + 1 + mentions_from(s, i)[m].len() <= s.len() && s[p] == '@'
                        && s.subrange(p + 1, p + 1 + mentions_from(s, i)[m].len()) == mentions_from(s, i)[m]
                } by {
                    if m == 0 {
                        assert(mentions_from(s, i)[0] == head);
                        assert forall|k: int| 0 <= k < head.len() implies is_name_char(#[trigger] head[k]) by {
                            assert(head[k] == s[i + 1 + k]);
                        }
                        assert(s.subrange(i + 1, i + 1 + head.len()) == head);
                    } else {
                        assert(mentions_from(s, i)[m] == rest[m - 1]);
                        let t = rest[m - 1];
                        let p = choose|p: int| e <= p && p + 1 + t.len() <= s.len() && s[p] == '@'
                            && s.subrange(p + 1, p + 1 + t.len()) == t;
                        assert(i <= p);
                    }
                }
            }
        } else {
            lemma_mentions_are_names(s, i + 1);
            assert(mentions_from(s, i) == mentions_from(s, i + 1));
            assert forall|m: int| 0 <= m < mentions_from(s, i).len() implies {
                &&& is_mention_name(#[trigger] mentions_from(s, i)[m])
                &&& exists|p: int| i <= p && p + 1 + mentions_from(s, i)[m].len() <= s.len() && s[p] == '@'
                    && s.subrange(p + 1, p + 1 + mentions_from(s, i)[m].len()) == mentions_from(s, i)[m]
            } by {
                let t = mentions_from(s, i + 1)[m];
                assert(is_mention_name(t));
                let p = choose|p: int| i + 1 <= p && p + 1 + t.len() <= s.len() && s[p] == '@'
                    && s.subrange(p + 1, p + 1 + t.len()) == t;
                assert(i <= p);
            }
        }
    }
}

/// The views of a list of texts.
pub open spec fn string_views(v: Seq<String>) -> Seq<Seq<char>> {
    v.map_values(|s: String| s@)
}

/// Extracts the mentioned names from a text, in order.
pub fn extract_mentions(content: &str) -> (r: Vec<String>)
    ensures
        string_views(r@) == mentions_from(content@, 0),
{
    let s = chars_of(content);
    let mut out: Vec<String> = Vec::new();
    let mut i: usize = 0;
    while i < s.len()
        invariant
            i <= s.len(),
            s@ == content@,
            string_views(out@) + mentions_from(s@, i as int) == mentions_from(s@, 0),
        decreases s.len() - i,
    {
        if s[i] == '@' && i + 1 < s.len() && char_is_name(s[i + 1]) {
            let mut e: usize = i + 1;
            proof {
                lemma_name_end_bounds(s@, (i + 1) as int);
            }
            while e < s.len() && char_is_name(s[e])
                invariant
                    i + 1 <= e <= s.len(),
                    name_end(s@, (i + 1) as int) == name_end(s@, e as int),
                decreases s.len() - e,
            {
                e = e + 1;
            }
            let mut name_chars: Vec<char> = Vec::new();
            let mut k: usize = i + 1;
            while k < e
                invariant
                    i + 1 <= k <= e <= s.len(),
                    name_chars@ == s@.subrange((i + 1) as int, k as int),
                decreases e - k,
            {
                name_chars.push(s[k]);
                assert(s@.subrange((i + 1) as int, k + 1) =~= s@.subrange((i + 1) as int, k as int).push(s@[k as int]));
                k = k + 1;
            }
            let name = string_of_chars(&name_chars);
            let ghost before = string_views(out@);
            out.push(name);
            proof {
                assert(string_views(out@) =~= before.push(name@));
                assert(e as int == name_end(s@, (i + 1) as int));
                assert(mentions_from(s@, i as int) == seq![s@.subrange(i + 1, e as int)] + mentions_from(s@, e as int));
                assert(before.push(name@) + mentions_from(s@, e as int) =~= before + (seq![name@] + mentions_from(s@, e as int)));
            }
            i = e;
        } else {
            i = i + 1;
        }
    }
    assert(string_views(out@) + mentions_from(s@, s.len() as int) =~= string_views(out@));
    out
}

} // verus!
