use vstd::prelude::*;
use crate::ids::{parse_uuid, uuid_parse_result};
use crate::model::{ChannelMessage, ChannelPermissions, DirectMessage, Notification, NotificationType, ServerInviteStatus, User, UserInfo, UserProfile, UserStatus};
use crate::util::{parse_user_color, role_of, parse_role};

verus! {

/// Whether a stored identifier text parses.
pub open spec fn id_parses(text: Seq<char>) -> bool {
    uuid_parse_result(text) is Ok
}

/// The identifier that a stored identifier text parses to.
pub open spec fn parsed_id(text: Seq<char>) -> u128 {
    uuid_parse_result(text)->Ok_0
}

/// Parse an identifier that is known to parse.
pub fn expect_id(text: &str) -> (id: u128)
    requires
        id_parses(text@),
    ensures
        id == parsed_id(text@),
{
    match parse_uuid(text) {
        Ok(id) => id,
        Err(_) => {
            assert(false);
            0
        },
    }
}

/// Parse an identifier, with the parse error's text as the error.
pub fn parse_id(text: &str) -> (r: Result<u128, String>)
    ensures
        match (r, uuid_parse_result(text@)) {
            (Ok(a), Ok(b)) => a == b,
            (Err(e), Err(m)) => e@ == m,
            _ => false,
        },
{
    parse_uuid(text)
}

/// The stored columns of a user that lists and forums read.
#[derive(Debug, Clone)]
pub struct UserRow {
    pub id: String,
    pub username: String,
    pub color: String,
    pub role: String,
    pub profile_pic: Option<String>,
    pub cover_banner: Option<String>,
}

/// A user without images, from its stored row, with the given status.
pub fn user_info_from_row(row: UserRow, status: UserStatus) -> (u: UserInfo)
    requires
        id_parses(row.id@),
    ensures
        u.id == parsed_id(row.id@),
        u.username == row.username,
        u.color.0@ == row.color@,
        u.role == role_of(row.role@),
        u.status == status,
{
    let id = expect_id(row.id.as_str());
    let color = parse_user_color(row.color.as_str());
    let role = parse_role(row.role.as_str());
    UserInfo { id, username: row.username, color, role, status }
}

/// A user, from its stored row, with the given status.
pub fn user_from_row(row: UserRow, status: UserStatus) -> (u: User)
    requires
        id_parses(row.id@),
    ensures
        u.id == parsed_id(row.id@),
        u.username == row.username,
        u.color.0@ == row.color@,
        u.role == role_of(row.role@),
        u.profile_pic == row.profile_pic,
        u.cover_banner == row.cover_banner,
        u.status == status,
{
    let id = expect_id(row.id.as_str());
    let color = parse_user_color(row.color.as_str());
    let role = parse_role(row.role.as_str());
    User { id, username: row.username, color, role, profile_pic: row.profile_pic, cover_banner: row.cover_banner, status }
}

/// The stored columns of a user's full profile.
#[derive(Debug, Clone)]
pub struct ProfileRow {
    pub id: String,
    pub username: String,
    pub color: String,
    pub role: String,
    pub bio: Option<String>,
    pub url1: Option<String>,
    pub url2: Option<String>,
    pub url3: Option<String>,
    pub location: Option<String>,
    pub profile_pic: Option<String>,
    pub cover_banner: Option<String>,
}

/// A user's profile from its stored row; the password hash is never handed out.
pub fn profile_from_row(row: ProfileRow) -> (p: UserProfile)
    requires
        id_parses(row.id@),
    ensures
        p.id == parsed_id(row.id@),
        p.username == row.username,
        p.hash@ == Seq::<char>::empty(),
        p.color.0@ == row.color@,
        p.role == role_of(row.role@),
        p.bio == row.bio,
        p.url1 == row.url1,
        p.url2 == row.url2,
        p.url3 == row.url3,
        p.location == row.location,
        p.profile_pic == row.profile_pic,
        p.cover_banner == row.cover_banner,
{
    let id = expect_id(row.id.as_str());
    let color = parse_user_color(row.color.as_str());
    let role = parse_role(row.role.as_str());
    UserProfile {
        id,
        username: row.username,
        hash: String::new(),
        color,
        role,
        bio: row.bio,
        url1: row.url1,
        url2: row.url2,
        url3: row.url3,
        location: row.location,
        profile_pic: row.profile_pic,
        cover_banner: row.cover_banner,
    }
}

/// The profile of a newly registered user: no hash handed out and no profile details.
pub fn new_user_profile(id: u128, username: String, color: &str, role: &str) -> (p: UserProfile)
    ensures
        p.id == id,
        p.username == username,
        p.hash@ == Seq::<char>::empty(),
        p.color.0@ == color@,
        p.role == role_of(role@),
        p.bio.is_none() && p.url1.is_none() && p.url2.is_none() && p.url3.is_none(),
        p.location.is_none() && p.profile_pic.is_none() && p.cover_banner.is_none(),
{
    UserProfile {
        id,
        username,
        hash: String::new(),
        color: parse_user_color(color),
        role: parse_role(role),
        bio: None,
        url1: None,
        url2: None,
        url3: None,
        location: None,
        profile_pic: None,
        cover_banner: None,
    }
}

/// The user that a profile shows, with the given status.
pub fn user_from_profile(p: UserProfile, status: UserStatus) -> (u: User)
    ensures
        u.id == p.id,
        u.username == p.username,
        u.color == p.color,
        u.role == p.role,
        u.profile_pic == p.profile_pic,
        u.cover_banner == p.cover_banner,
        u.status == status,
{
    User {
        id: p.id,
        username: p.username,
        color: p.color,
        role: p.role,
        profile_pic: p.profile_pic,
        cover_banner: p.cover_banner,
        status,
    }
}

/// The user that a user list shows: no images.
pub fn user_without_images(info: UserInfo) -> (u: User)
    ensures
        u.id == info.id,
        u.username == info.username,
        u.color == info.color,
        u.role == info.role,
        u.profile_pic.is_none(),
        u.cover_banner.is_none(),
        u.status == info.status,
{
    User {
        id: info.id,
        username: info.username,
        color: info.color,
        role: info.role,
        profile_pic: None,
        cover_banner: None,
        status: info.status,
    }
}

/// A user without images from its stored row, or nothing when the stored identifier
/// does not parse.
pub fn try_user_info_from_row(row: UserRow, status: UserStatus) -> (r: Option<UserInfo>)
    ensures
        r is Some <==> id_parses(row.id@),
        r matches Some(u) ==> u.id == parsed_id(row.id@) && u.username == row.username && u.color.0@ == row.color@
            && u.role == role_of(row.role@) && u.status == status,
{
    match parse_id(row.id.as_str()) {
        Ok(_) => Some(user_info_from_row(row, status)),
        Err(_) => None,
    }
}

/// A user from its stored row, or nothing when the stored identifier does not parse.
pub fn try_user_from_row(row: UserRow, status: UserStatus) -> (r: Option<User>)
    ensures
        r is Some <==> id_parses(row.id@),
        r matches Some(u) ==> u.id == parsed_id(row.id@) && u.username == row.username && u.color.0@ == row.color@
            && u.role == role_of(row.role@) && u.profile_pic == row.profile_pic && u.cover_banner == row.cover_banner
            && u.status == status,
{
    match parse_id(row.id.as_str()) {
        Ok(_) => Some(user_from_row(row, status)),
        Err(_) => None,
    }
}

/// A profile from its stored row, or nothing when the stored identifier does not parse.
pub fn try_profile_from_row(row: ProfileRow) -> (r: Option<UserProfile>)
    ensures
        r is Some <==> id_parses(row.id@),
        r matches Some(p) ==> p.id == parsed_id(row.id@) && p.username == row.username && p.hash@ == Seq::<char>::empty()
            && p.color.0@ == row.color@ && p.role == role_of(row.role@) && p.bio == row.bio && p.url1 == row.url1
            && p.url2 == row.url2 && p.url3 == row.url3 && p.location == row.location
            && p.profile_pic == row.profile_pic && p.cover_banner == row.cover_banner,
{
    match parse_id(row.id.as_str()) {
        Ok(_) => Some(profile_from_row(row)),
        Err(_) => None,
    }
}

/// A channel message from its stored row; refused when an identifier does not parse.
pub fn channel_message_from_row(channel_id: u128, id: &str, sent_by: &str, timestamp: i64, content: String) -> (r: Result<
    ChannelMessage,
    String,
>)
    ensures
        match r {
            Ok(m) => {
                &&& uuid_parse_result(id@) == Ok::<u128, Seq<char>>(m.id)
                &&& uuid_parse_result(sent_by@) == Ok::<u128, Seq<char>>(m.sent_by)
                &&& m.channel_id == channel_id
                &&& m.timestamp == timestamp
                &&& m.content == content
            },
            Err(e) => match uuid_parse_result(id@) {
                Err(m) => e@ == m,
                Ok(_) => uuid_parse_result(sent_by@) == Err::<u128, Seq<char>>(e@),
            },
        },
{
    let mid = parse_id(id)?;
    let sender = parse_id(sent_by)?;
    Ok(ChannelMessage { id: mid, channel_id, sent_by: sender, timestamp, content })
}

/// A direct message from its stored row; refused when an identifier does not parse
/// (the first one that does not, in the order id, sender, recipient).
pub fn direct_message_from_row(id: &str, from: &str, to: &str, timestamp: i64, content: String) -> (r: Result<
    DirectMessage,
    String,
>)
    ensures
        match r {
            Ok(m) => {
                &&& uuid_parse_result(id@) == Ok::<u128, Seq<char>>(m.id)
                &&& uuid_parse_result(from@) == Ok::<u128, Seq<char>>(m.from)
                &&& uuid_parse_result(to@) == Ok::<u128, Seq<char>>(m.to)
                &&& m.timestamp == timestamp
                &&& m.content == content
            },
            Err(e) => match (uuid_parse_result(id@), uuid_parse_result(from@), uuid_parse_result(to@)) {
                (Err(m), _, _) => e@ == m,
                (Ok(_), Err(m), _) => e@ == m,
                (Ok(_), Ok(_), Err(m)) => e@ == m,
                _ => false,
            },
        },
{
    let mid = parse_id(id)?;
    let sender = parse_id(from)?;
    let recipient = parse_id(to)?;
    Ok(DirectMessage { id: mid, from: sender, to: recipient, timestamp, content })
}

/// The kind of notification that a stored type name stands for.
pub open spec fn notification_kind(t: Seq<char>) -> NotificationType {
    if t == "ThreadReply"@ {
        NotificationType::ThreadReply
    } else if t == "DM"@ {
        NotificationType::DM
    } else if t == "Announcement"@ {
        NotificationType::Announcement
    } else if t == "Mention"@ {
        NotificationType::Mention
    } else {
        NotificationType::Other(arbitrary())
    }
}

/// Whether a notification kind is the one a stored type name stands for (an unknown
/// name is kept as the text of `Other`).
pub open spec fn is_kind_of(k: NotificationType, t: Seq<char>) -> bool {
    match k {
        NotificationType::Other(s) => notification_kind(t) is Other && s@ == t,
        _ => k == notification_kind(t),
    }
}

/// The kind of notification for a stored type name.
pub fn parse_notification_type(t: &str) -> (k: NotificationType)
    ensures
        is_kind_of(k, t@),
{
    if crate::text::same_text(t, "ThreadReply") {
        NotificationType::ThreadReply
    } else if crate::text::same_text(t, "DM") {
        NotificationType::DM
    } else if crate::text::same_text(t, "Announcement") {
        NotificationType::Announcement
    } else if crate::text::same_text(t, "Mention") {
        NotificationType::Mention
    } else {
        NotificationType::Other(String::from_str(t))
    }
}

/// A notification from its stored row; refused when an identifier does not parse (in
/// the order id, user, related item).
pub fn notification_from_row(
    user_id: &str,
    id: &str,
    notif_type: &str,
    related_id: &str,
    created_at: i64,
    read: i32,
    extra: Option<String>,
) -> (r: Result<Notification, String>)
    ensures
        match r {
            Ok(n) => {
                &&& uuid_parse_result(id@) == Ok::<u128, Seq<char>>(n.id)
                &&& uuid_parse_result(user_id@) == Ok::<u128, Seq<char>>(n.user_id)
                &&& uuid_parse_result(related_id@) == Ok::<u128, Seq<char>>(n.related_id)
                &&& is_kind_of(n.notif_type, notif_type@)
                &&& n.created_at == created_at
                &&& n.read == (read != 0)
                &&& n.extra == extra
            },
            Err(e) => match (uuid_parse_result(id@), uuid_parse_result(user_id@), uuid_parse_result(related_id@)) {
                (Err(m), _, _) => e@ == m,
                (Ok(_), Err(m), _) => e@ == m,
                (Ok(_), Ok(_), Err(m)) => e@ == m,
                _ => false,
            },
        },
{
    let kind = parse_notification_type(notif_type);
    let nid = parse_id(id)?;
    let uid = parse_id(user_id)?;
    let rid = parse_id(related_id)?;
    Ok(Notification { id: nid, user_id: uid, notif_type: kind, related_id: rid, created_at, read: read != 0, extra })
}

/// The name under which an invite state is stored.
pub open spec fn invite_status_name(s: ServerInviteStatus) -> Seq<char> {
    match s {
        ServerInviteStatus::Pending => "Pending"@,
        ServerInviteStatus::Accepted => "Accepted"@,
        ServerInviteStatus::Declined => "Declined"@,
        ServerInviteStatus::Expired => "Expired"@,
    }
}

/// The invite state that a stored name stands for (an unknown name reads as pending).
pub open spec fn invite_status_of(t: Seq<char>) -> ServerInviteStatus {
    if t == "Pending"@ {
        ServerInviteStatus::Pending
    } else if t == "Accepted"@ {
        ServerInviteStatus::Accepted
    } else if t == "Declined"@ {
        ServerInviteStatus::Declined
    } else if t == "Expired"@ {
        ServerInviteStatus::Expired
    } else {
        ServerInviteStatus::Pending
    }
}

/// The name under which an invite state is stored.
pub fn invite_status_to_str(s: ServerInviteStatus) -> (t: &'static str)
    ensures
        t@ == invite_status_name(s),
{
    match s {
        ServerInviteStatus::Pending => "Pending",
        ServerInviteStatus::Accepted => "Accepted",
        ServerInviteStatus::Declined => "Declined",
        ServerInviteStatus::Expired => "Expired",
    }
}

/// The invite state for a stored name.
pub fn parse_invite_status(t: &str) -> (s: ServerInviteStatus)
    ensures
        s == invite_status_of(t@),
{
    if crate::text::same_text(t, "Pending") {
        ServerInviteStatus::Pending
    } else if crate::text::same_text(t, "Accepted") {
        ServerInviteStatus::Accepted
    } else if crate::text::same_text(t, "Declined") {
        ServerInviteStatus::Declined
    } else if crate::text::same_text(t, "Expired") {
        ServerInviteStatus::Expired
    } else {
        ServerInviteStatus::Pending
    }
}

/// Storing an invite state and reading it back gives the same state.
pub proof fn lemma_invite_status_round_trip(s: ServerInviteStatus)
    ensures
        invite_status_of(invite_status_name(s)) == s,
{
    reveal_strlit("Pending");
    reveal_strlit("Accepted");
    reveal_strlit("Declined");
    reveal_strlit("Expired");
    assert("Accepted"@.len() != "Pending"@.len());
    assert("Declined"@.len() != "Pending"@.len());
    assert("Declined"@[0] != "Accepted"@[0]);
    assert("Expired"@[0] != "Pending"@[0]);
    assert("Expired"@.len() != "Accepted"@.len());
    assert("Expired"@.len() != "Declined"@.len());
}

/// Which users may read and which may write a channel, from its permission rows
/// (user, read flag, write flag); refused when a user identifier does not parse.
pub fn channel_permissions_from_rows(rows: &Vec<(String, i32, i32)>) -> (r: Result<ChannelPermissions, String>)
    ensures
        match r {
            Ok(p) => {
                &&& (forall|i: int| 0 <= i < rows@.len() ==> #[trigger] id_parses(rows@[i].0@))
                &&& p.can_read@ == rows@.filter(|row: (String, i32, i32)| row.1 != 0).map_values(|row: (String, i32, i32)| parsed_id(row.0@))
                &&& p.can_write@ == rows@.filter(|row: (String, i32, i32)| row.2 != 0).map_values(|row: (String, i32, i32)| parsed_id(row.0@))
            },
            Err(e) => exists|i: int|
                0 <= i < rows@.len()
                && (forall|j: int| 0 <= j < i ==> #[trigger] id_parses(rows@[j].0@))
                && uuid_parse_result(#[trigger] rows@[i].0@) == Err::<u128, Seq<char>>(e@),
        },
{
    let mut can_read: Vec<u128> = Vec::new();
    let mut can_write: Vec<u128> = Vec::new();
    let mut i: usize = 0;
    while i < rows.len()
        invariant
            i <= rows.len(),
            forall|j: int| 0 <= j < i ==> #[trigger] id_parses(rows@[j].0@),
            can_read@ == rows@.take(i as int).filter(|row: (String, i32, i32)| row.1 != 0).map_values(|row: (String, i32, i32)| parsed_id(row.0@)),
            can_write@ == rows@.take(i as int).filter(|row: (String, i32, i32)| row.2 != 0).map_values(|row: (String, i32, i32)| parsed_id(row.0@)),
        decreases rows.len() - i,
    {
        let row = &rows[i];
        let uuid = match parse_id(row.0.as_str()) {
            Ok(u) => u,
            Err(e) => {
                return Err(e);
            },
        };
        proof {
            let next = rows@.take(i + 1);
            assert(next =~= rows@.take(i as int).push(rows@[i as int]));
            reveal_with_fuel(Seq::filter, 1);
            assert(next.drop_last() =~= rows@.take(i as int));
        }
        if row.1 != 0 {
            can_read.push(uuid);
        }
        if row.2 != 0 {
            can_write.push(uuid);
        }
        proof {
            let pr = |row: (String, i32, i32)| row.1 != 0;
            let pw = |row: (String, i32, i32)| row.2 != 0;
            let f = |row: (String, i32, i32)| parsed_id(row.0@);
            let next = rows@.take(i + 1);
            assert(can_read@ =~= next.filter(pr).map_values(f));
            assert(can_write@ =~= next.filter(pw).map_values(f));
        }
        i = i + 1;
    }
    assert(rows@.take(rows.len() as int) =~= rows@);
    Ok(ChannelPermissions { can_read, can_write })
}

} // verus!
