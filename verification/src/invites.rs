use vstd::prelude::*;
use crate::errors::ServerError;
use crate::model::{Server, ServerInvite, ServerInviteStatus, User, UserColor, UserStatus};
use crate::records::{expect_id, id_parses, parse_id, parse_invite_status, invite_status_of, parsed_id};
use crate::text::push_char;
use crate::util::{color_of, color_parse_cuts_char, hex_digit_value, named_color, parse_color, parse_role, role_of, TermColor};

verus! {

/// Server invites.
pub struct InviteService;

/// A question that the check before sending an invite asks the store.
#[derive(Debug, Clone, Copy, PartialEq, Eq, Structural)]
pub enum InviteCheckStep {
    /// Is the sender a member of the server?
    SenderIsMember,
    /// Is the invited user already a member of the server?
    TargetIsMember,
    /// Has the sender already invited this user to this server, still pending?
    AlreadyInvited,
}

/// What follows an answer in the check before sending an invite.
#[derive(Debug, Clone)]
pub enum InviteCheckOutcome {
    /// Ask the store this next.
    Ask(InviteCheckStep),
    /// The invite is refused.
    Refused(ServerError),
    /// The invite may be created.
    Approved,
}

/// The question that follows an answer in the check before sending an invite, if any.
pub open spec fn next_question(step: InviteCheckStep, answer: bool) -> Option<InviteCheckStep> {
    match step {
        InviteCheckStep::SenderIsMember => if answer { Some(InviteCheckStep::TargetIsMember) } else { None },
        InviteCheckStep::TargetIsMember => if answer { None } else { Some(InviteCheckStep::AlreadyInvited) },
        InviteCheckStep::AlreadyInvited => None,
    }
}

/// Whether an answer ends the check with approval.
pub open spec fn approves(step: InviteCheckStep, answer: bool) -> bool {
    step == InviteCheckStep::AlreadyInvited && !answer
}

/// The store's answer to a question, given whether the sender is a member, whether
/// the invited user is one, and whether a pending invite already exists.
pub open spec fn store_answer(step: InviteCheckStep, sender_member: bool, target_member: bool, already_invited: bool) -> bool {
    match step {
        InviteCheckStep::SenderIsMember => sender_member,
        InviteCheckStep::TargetIsMember => target_member,
        InviteCheckStep::AlreadyInvited => already_invited,
    }
}

/// Whether the check, run from `step` for at most `rounds` further questions against
/// a store that answers as given, ends with approval.
pub open spec fn check_approves_from(
    step: InviteCheckStep,
    rounds: nat,
    sender_member: bool,
    target_member: bool,
    already_invited: bool,
) -> bool
    decreases rounds,
{
    let a = store_answer(step, sender_member, target_member, already_invited);
    if approves(step, a) {
        true
    } else {
        match next_question(step, a) {
            Some(n) => rounds > 0 && check_approves_from(n, (rounds - 1) as nat, sender_member, target_member, already_invited),
            None => false,
        }
    }
}

/// The check before sending an invite, run from its first question, approves exactly
/// when the sender is a member of the server, the invited user is not, and no pending
/// invite from the sender to that user exists; it asks at most three questions.
pub proof fn lemma_invite_check_approves_exactly_valid(sender_member: bool, target_member: bool, already_invited: bool)
    ensures
        check_approves_from(InviteCheckStep::SenderIsMember, 2, sender_member, target_member, already_invited)
            <==> (sender_member && !target_member && !already_invited),
{
    reveal_with_fuel(check_approves_from, 3);
}

impl InviteService {
    /// The first question of the check before sending an invite.
    pub fn first_invite_check() -> (s: InviteCheckStep)
        ensures
            s == InviteCheckStep::SenderIsMember,
    {
        InviteCheckStep::SenderIsMember
    }

    /// The check before sending an invite: the sender must be a member, the invited
    /// user must not be one, and no pending invite from the sender may exist for them.
    pub fn next_invite_check(step: InviteCheckStep, answer: bool) -> (o: InviteCheckOutcome)
        ensures
            (o is Approved) == approves(step, answer),
            (o is Ask) == next_question(step, answer).is_some(),
            o matches InviteCheckOutcome::Ask(n) ==> next_question(step, answer) == Some(n),
            match step {
                InviteCheckStep::SenderIsMember => if answer {
                    o matches InviteCheckOutcome::Ask(InviteCheckStep::TargetIsMember)
                } else {
                    o matches InviteCheckOutcome::Refused(ServerError::Authorization(m))
                        && m@ == "You must be a member of this server to invite others"@
                },
                InviteCheckStep::TargetIsMember => if answer {
                    o matches InviteCheckOutcome::Refused(ServerError::BadRequest(m)) && m@ == "User is already in this server"@
                } else {
                    o matches InviteCheckOutcome::Ask(InviteCheckStep::AlreadyInvited)
                },
                InviteCheckStep::AlreadyInvited => if answer {
                    o matches InviteCheckOutcome::Refused(ServerError::BadRequest(m)) && m@ == "Invite already sent to this user"@
                } else {
                    o matches InviteCheckOutcome::Approved
                },
            },
    {
        match step {
            InviteCheckStep::SenderIsMember => if answer {
                InviteCheckOutcome::Ask(InviteCheckStep::TargetIsMember)
            } else {
                InviteCheckOutcome::Refused(
                    ServerError::Authorization(String::from_str("You must be a member of this server to invite others")),
                )
            },
            InviteCheckStep::TargetIsMember => if answer {
                InviteCheckOutcome::Refused(ServerError::BadRequest(String::from_str("User is already in this server")))
            } else {
                InviteCheckOutcome::Ask(InviteCheckStep::AlreadyInvited)
            },
            InviteCheckStep::AlreadyInvited => if answer {
                InviteCheckOutcome::Refused(ServerError::BadRequest(String::from_str("Invite already sent to this user")))
            } else {
                InviteCheckOutcome::Approved
            },
        }
    }

    /// The direct message that carries an invite.
    pub fn invite_message_content(from_username: &str, server_name: &str) -> (s: String)
        ensures
            s@ == "🎮 SERVER INVITE: "@ + from_username@ + " invited you to join '"@ + server_name@
                + "'!\n\nType /accept to accept or /decline to decline this invitation."@,
    {
        let mut s = String::from_str("🎮 SERVER INVITE: ");
        s.append(from_username);
        s.append(" invited you to join '");
        s.append(server_name);
        s.append("'!\n\nType /accept to accept or /decline to decline this invitation.");
        s
    }

    /// Decide a response to an invite (absent when no invite has that identifier): only
    /// its recipient may respond, and only while it is pending; the new state is
    /// accepted or declined.
    pub fn check_invite_response(invite: &Option<ServerInvite>, user_id: u128, accept: bool) -> (r: Result<
        ServerInviteStatus,
        ServerError,
    >)
        ensures
            match invite {
                None => r matches Err(ServerError::NotFound(m)) && m@ == "Invite not found"@,
                Some(inv) => if inv.to_user_id != user_id {
                    r matches Err(ServerError::Forbidden(m)) && m@ == "Not authorized to respond to this invite"@
                } else if inv.status != ServerInviteStatus::Pending {
                    r matches Err(ServerError::BadRequest(m)) && m@ == "Invite is no longer pending"@
                } else {
                    r == Ok::<ServerInviteStatus, ServerError>(
                        if accept { ServerInviteStatus::Accepted } else { ServerInviteStatus::Declined },
                    )
                },
            },
    {
        match invite {
            None => Err(ServerError::NotFound(String::from_str("Invite not found"))),
            Some(inv) => {
                if inv.to_user_id != user_id {
                    Err(ServerError::Forbidden(String::from_str("Not authorized to respond to this invite")))
                } else if inv.status != ServerInviteStatus::Pending {
                    Err(ServerError::BadRequest(String::from_str("Invite is no longer pending")))
                } else if accept {
                    Ok(ServerInviteStatus::Accepted)
                } else {
                    Ok(ServerInviteStatus::Declined)
                }
            },
        }
    }

    /// The refusal when no pending invite from a user exists.
    pub fn no_pending_invite_error() -> (e: ServerError)
        ensures
            e matches ServerError::NotFound(m) && m@ == "No pending invite from this user"@,
    {
        ServerError::NotFound(String::from_str("No pending invite from this user"))
    }

    /// The invite as it stands after a response.
    pub fn with_status(invite: ServerInvite, status: ServerInviteStatus) -> (r: ServerInvite)
        ensures
            r.status == status,
            r.id == invite.id,
            r.from_user == invite.from_user,
            r.to_user_id == invite.to_user_id,
            r.server == invite.server,
            r.timestamp == invite.timestamp,
    {
        let mut updated = invite;
        updated.status = status;
        updated
    }

    /// The confirmation shown to a user who responded to an invite.
    pub fn response_confirmation(accept: bool) -> (s: String)
        ensures
            s@ == "Server invite "@ + (if accept { "accepted"@ } else { "declined"@ }) + " successfully!"@,
    {
        let mut s = String::from_str("Server invite ");
        if accept {
            s.append("accepted");
        } else {
            s.append("declined");
        }
        s.append(" successfully!");
        s
    }
}

/// A lower-case hexadecimal digit.
pub open spec fn hex_char(d: nat) -> char {
    if d < 10 { crate::text::digit_char(d) }
    else if d == 10 { 'a' }
    else if d == 11 { 'b' }
    else if d == 12 { 'c' }
    else if d == 13 { 'd' }
    else if d == 14 { 'e' }
    else { 'f' }
}

/// The name of a color as a user color holds it: its name, or `#rrggbb` in lower-case
/// hexadecimal.
pub open spec fn color_name(c: TermColor) -> Seq<char> {
    match c {
        TermColor::Reset => "Reset"@,
        TermColor::Black => "Black"@,
        TermColor::Red => "Red"@,
        TermColor::Green => "Green"@,
        TermColor::Yellow => "Yellow"@,
        TermColor::Blue => "Blue"@,
        TermColor::Magenta => "Magenta"@,
        TermColor::Cyan => "Cyan"@,
        TermColor::Gray => "Gray"@,
        TermColor::DarkGray => "DarkGray"@,
        TermColor::LightRed => "LightRed"@,
        TermColor::LightGreen => "LightGreen"@,
        TermColor::LightYellow => "LightYellow"@,
        TermColor::LightBlue => "LightBlue"@,
        TermColor::LightMagenta => "LightMagenta"@,
        TermColor::LightCyan => "LightCyan"@,
        TermColor::White => "White"@,
        TermColor::Rgb(r, g, b) => seq![
            '#',
            hex_char((r / 16) as nat),
            hex_char((r % 16) as nat),
            hex_char((g / 16) as nat),
            hex_char((g % 16) as nat),
            hex_char((b / 16) as nat),
            hex_char((b % 16) as nat),
        ],
    }
}

/// An upper-case hexadecimal digit.
pub open spec fn hex_char_upper(d: nat) -> char {
    if d < 10 { crate::text::digit_char(d) }
    else if d == 10 { 'A' }
    else if d == 11 { 'B' }
    else if d == 12 { 'C' }
    else if d == 13 { 'D' }
    else if d == 14 { 'E' }
    else { 'F' }
}

/// A hexadecimal digit in lower or upper case.
pub open spec fn hex_digit_in(d: nat, upper: bool) -> char {
    if upper { hex_char_upper(d) } else { hex_char(d) }
}

/// The `#rrggbb` text of a color, its digits in lower or upper case.
pub open spec fn hex_color_text(r: u8, g: u8, b: u8, upper: bool) -> Seq<char> {
    seq![
        '#',
        hex_digit_in((r / 16) as nat, upper),
        hex_digit_in((r % 16) as nat, upper),
        hex_digit_in((g / 16) as nat, upper),
        hex_digit_in((g % 16) as nat, upper),
        hex_digit_in((b / 16) as nat, upper),
        hex_digit_in((b % 16) as nat, upper),
    ]
}

proof fn lemma_hex_digit_byte(d: nat, upper: bool)
    requires
        d < 16,
    ensures
        (hex_digit_in(d, upper) as u32) <= 0x7F,
        (hex_digit_in(d, upper) as u32) != 43,
        (hex_digit_in(d, upper) as u32) != 35,
        hex_digit_value((hex_digit_in(d, upper) as u32) as u8) == Some(d as u8),
{
}

proof fn lemma_encode_ascii(s: Seq<char>)
    requires
        forall|i: int| 0 <= i < s.len() ==> (#[trigger] s[i] as u32) <= 0x7F,
    ensures
        vstd::utf8::encode_utf8(s).len() == s.len(),
        forall|i: int| 0 <= i < s.len() ==> #[trigger] vstd::utf8::encode_utf8(s)[i] == (s[i] as u32) as u8,
    decreases s.len(),
{
    if s.len() > 0 {
        let rest = s.drop_first();
        assert forall|i: int| 0 <= i < rest.len() implies (#[trigger] rest[i] as u32) <= 0x7F by {
            assert(rest[i] == s[i + 1]);
        }
        lemma_encode_ascii(rest);
        let v = s[0] as u32;
        assert(v <= 0x7F);
        assert((v & 0x7F) as u8 == v as u8) by (bit_vector)
            requires
                v <= 0x7F,
        ;
        assert(vstd::utf8::encode_scalar(v) == seq![v as u8]);
        let e = vstd::utf8::encode_utf8(s);
        assert(e == seq![v as u8] + vstd::utf8::encode_utf8(rest));
        assert forall|i: int| 0 <= i < s.len() implies #[trigger] e[i] == (s[i] as u32) as u8 by {
            if i > 0 {
                assert(rest[i - 1] == s[i]);
            }
        }
    }
}

/// A color written as `#rrggbb`, in lower- or upper-case hexadecimal, reads back as
/// that color (and can be read without cutting a character); the name a user color
/// gets for an RGB color is that text in lower case.
pub proof fn lemma_hex_color_round_trip(r: u8, g: u8, b: u8, upper: bool)
    ensures
        !color_parse_cuts_char(hex_color_text(r, g, b, upper), vstd::utf8::encode_utf8(hex_color_text(r, g, b, upper))),
        color_of(hex_color_text(r, g, b, upper), vstd::utf8::encode_utf8(hex_color_text(r, g, b, upper)))
            == TermColor::Rgb(r, g, b),
        color_name(TermColor::Rgb(r, g, b)) == hex_color_text(r, g, b, false),
{
    let t = hex_color_text(r, g, b, upper);
    let digits = seq![(r / 16) as nat, (r % 16) as nat, (g / 16) as nat, (g % 16) as nat, (b / 16) as nat, (b % 16) as nat];
    assert forall|k: int| 0 <= k < 6 implies #[trigger] t[k + 1] == hex_digit_in(digits[k], upper) by {}
    assert forall|k: int| 0 <= k < 6 implies {
        &&& (hex_digit_in(#[trigger] digits[k], upper) as u32) <= 0x7F
        &&& (hex_digit_in(digits[k], upper) as u32) != 43
        &&& hex_digit_value((hex_digit_in(digits[k], upper) as u32) as u8) == Some(digits[k] as u8)
    } by {
        lemma_hex_digit_byte(digits[k], upper);
    }
    assert forall|i: int| 0 <= i < t.len() implies (#[trigger] t[i] as u32) <= 0x7F by {
        if i > 0 {
            assert(t[i] == hex_digit_in(digits[i - 1], upper));
        }
    }
    lemma_encode_ascii(t);
    let e = vstd::utf8::encode_utf8(t);
    assert(e[0] == 35);
    assert(e[1] == (hex_digit_in(digits[0], upper) as u32) as u8);
    assert(e[2] == (hex_digit_in(digits[1], upper) as u32) as u8);
    assert(e[3] == (hex_digit_in(digits[2], upper) as u32) as u8);
    assert(e[4] == (hex_digit_in(digits[3], upper) as u32) as u8);
    assert(e[5] == (hex_digit_in(digits[4], upper) as u32) as u8);
    assert(e[6] == (hex_digit_in(digits[5], upper) as u32) as u8);
    reveal_strlit("Reset");
    reveal_strlit("Black");
    reveal_strlit("Red");
    reveal_strlit("Green");
    reveal_strlit("Yellow");
    reveal_strlit("Blue");
    reveal_strlit("Magenta");
    reveal_strlit("Cyan");
    reveal_strlit("Gray");
    reveal_strlit("DarkGray");
    reveal_strlit("LightRed");
    reveal_strlit("LightGreen");
    reveal_strlit("LightYellow");
    reveal_strlit("LightBlue");
    reveal_strlit("LightMagenta");
    reveal_strlit("LightCyan");
    reveal_strlit("White");
    assert(t != "Magenta"@) by {
        assert(t[0] != "Magenta"@[0]);
    }
    assert(named_color(t).is_none());
    assert(color_name(TermColor::Rgb(r, g, b)) =~= hex_color_text(r, g, b, false));
}

fn hex_digit_char(d: u8) -> (c: char)
    requires
        d < 16,
    ensures
        c == hex_char(d as nat),
{
    if d == 0 { '0' }
    else if d == 1 { '1' }
    else if d == 2 { '2' }
    else if d == 3 { '3' }
    else if d == 4 { '4' }
    else if d == 5 { '5' }
    else if d == 6 { '6' }
    else if d == 7 { '7' }
    else if d == 8 { '8' }
    else if d == 9 { '9' }
    else if d == 10 { 'a' }
    else if d == 11 { 'b' }
    else if d == 12 { 'c' }
    else if d == 13 { 'd' }
    else if d == 14 { 'e' }
    else { 'f' }
}

/// The user color for a terminal color.
pub fn user_color_from_term(c: TermColor) -> (u: UserColor)
    ensures
        u.0@ == color_name(c),
{
    let name = match c {
        TermColor::Reset => "Reset",
        TermColor::Black => "Black",
        TermColor::Red => "Red",
        TermColor::Green => "Green",
        TermColor::Yellow => "Yellow",
        TermColor::Blue => "Blue",
        TermColor::Magenta => "Magenta",
        TermColor::Cyan => "Cyan",
        TermColor::Gray => "Gray",
        TermColor::DarkGray => "DarkGray",
        TermColor::LightRed => "LightRed",
        TermColor::LightGreen => "LightGreen",
        TermColor::LightYellow => "LightYellow",
        TermColor::LightBlue => "LightBlue",
        TermColor::LightMagenta => "LightMagenta",
        TermColor::LightCyan => "LightCyan",
        TermColor::White => "White",
        TermColor::Rgb(r, g, b) => {
            let mut s = String::new();
            push_char(&mut s, '#');
            push_char(&mut s, hex_digit_char(r / 16));
            push_char(&mut s, hex_digit_char(r % 16));
            push_char(&mut s, hex_digit_char(g / 16));
            push_char(&mut s, hex_digit_char(g % 16));
            push_char(&mut s, hex_digit_char(b / 16));
            push_char(&mut s, hex_digit_char(b % 16));
            assert(s@ =~= color_name(c));
            return UserColor(s);
        },
    };
    UserColor(String::from_str(name))
}

/// The stored columns of an invite with its sender and server.
#[derive(Debug, Clone)]
pub struct InviteRow {
    pub id: String,
    pub from_user_id: String,
    pub to_user_id: String,
    pub server_id: String,
    pub timestamp: i64,
    pub status: String,
    pub username: String,
    pub color: String,
    pub role: String,
    pub profile_pic: Option<String>,
    pub cover_banner: Option<String>,
    pub server_name: String,
    pub server_description: String,
    pub server_public: i32,
    pub invite_code: Option<String>,
    pub icon: Option<String>,
    pub banner: Option<String>,
    pub owner: String,
}

/// Whether an invite row can be read: its identifiers parse and its sender's color
/// can be parsed.
pub open spec fn invite_row_readable(row: InviteRow) -> bool {
    &&& id_parses(row.id@)
    &&& id_parses(row.from_user_id@)
    &&& id_parses(row.to_user_id@)
    &&& id_parses(row.server_id@)
    &&& id_parses(row.owner@)
    &&& !color_parse_cuts_char(row.color@, vstd::utf8::encode_utf8(row.color@))
}

/// Whether an invite is the one its stored row describes: the sender shown as
/// connected, the server without its moderators, members or channels.
pub open spec fn is_invite_of_row(inv: ServerInvite, row: InviteRow) -> bool {
    &&& inv.id == parsed_id(row.id@)
    &&& inv.to_user_id == parsed_id(row.to_user_id@)
    &&& inv.timestamp == row.timestamp
    &&& inv.status == invite_status_of(row.status@)
    &&& inv.from_user.id == parsed_id(row.from_user_id@)
    &&& inv.from_user.username == row.username
    &&& inv.from_user.color.0@ == color_name(color_of(row.color@, vstd::utf8::encode_utf8(row.color@)))
    &&& inv.from_user.role == role_of(row.role@)
    &&& inv.from_user.profile_pic == row.profile_pic
    &&& inv.from_user.cover_banner == row.cover_banner
    &&& inv.from_user.status == UserStatus::Connected
    &&& inv.server.id == parsed_id(row.server_id@)
    &&& inv.server.name == row.server_name
    &&& inv.server.description == row.server_description
    &&& inv.server.public == (row.server_public != 0)
    &&& inv.server.invite_code == row.invite_code
    &&& inv.server.icon == row.icon
    &&& inv.server.banner == row.banner
    &&& inv.server.owner == parsed_id(row.owner@)
    &&& inv.server.mods@.len() == 0
    &&& inv.server.userlist@.len() == 0
    &&& inv.server.channels@.len() == 0
}

/// An invite from its stored row.
pub fn invite_from_row(row: InviteRow) -> (inv: ServerInvite)
    requires
        invite_row_readable(row),
    ensures
        is_invite_of_row(inv, row),
{
    let status = parse_invite_status(row.status.as_str());
    let color = user_color_from_term(parse_color(row.color.as_str()));
    let role = parse_role(row.role.as_str());
    let from_user = User {
        id: expect_id(row.from_user_id.as_str()),
        username: row.username,
        color,
        role,
        profile_pic: row.profile_pic,
        cover_banner: row.cover_banner,
        status: UserStatus::Connected,
    };
    let server = Server {
        id: expect_id(row.server_id.as_str()),
        name: row.server_name,
        description: row.server_description,
        public: row.server_public != 0,
        invite_code: row.invite_code,
        icon: row.icon,
        banner: row.banner,
        owner: expect_id(row.owner.as_str()),
        mods: Vec::new(),
        userlist: Vec::new(),
        channels: Vec::new(),
    };
    ServerInvite {
        id: expect_id(row.id.as_str()),
        from_user,
        to_user_id: expect_id(row.to_user_id.as_str()),
        server,
        timestamp: row.timestamp,
        status,
    }
}

/// An invite from its stored row, or nothing when the row cannot be read.
pub fn try_invite_from_row(row: InviteRow) -> (r: Option<ServerInvite>)
    ensures
        r is Some <==> invite_row_readable(row),
        r matches Some(inv) ==> is_invite_of_row(inv, row),
{
    let readable = parse_id(row.id.as_str()).is_ok() && parse_id(row.from_user_id.as_str()).is_ok()
        && parse_id(row.to_user_id.as_str()).is_ok() && parse_id(row.server_id.as_str()).is_ok()
        && parse_id(row.owner.as_str()).is_ok() && !crate::util::parse_color_cuts_char(row.color.as_str());
    if readable {
        Some(invite_from_row(row))
    } else {
        None
    }
}

} // verus!
