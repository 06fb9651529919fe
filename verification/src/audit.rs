use vstd::prelude::*;
use crate::ids::{new_uuid, uuid_text, uuid_to_string};
use crate::text::{format_i64, signed_decimal_text};

verus! {

/// An action that the audit log records.
#[derive(Debug, Clone, Copy, PartialEq, Eq, Structural)]
pub enum AuditAction {
    UserLogin,
    UserLogout,
    UserRegister,
    LoginFailed,
    ProfileUpdate,
    PasswordChange,
    ColorChange,
    MessageSent,
    MessageDeleted,
    ChannelJoined,
    ChannelLeft,
    DMSent,
    ThreadCreated,
    PostCreated,
    PostDeleted,
    ThreadDeleted,
    UserBanned,
    UserUnbanned,
    UserWarned,
    MessageModerated,
    ServerInviteSent,
    ServerInviteAccepted,
    ServerInviteDeclined,
    ConfigurationChanged,
    UserRoleChanged,
    ChannelCreated,
    ChannelDeleted,
}

/// The name of an action as the log writes it.
pub open spec fn action_name(a: AuditAction) -> Seq<char> {
    match a {
        AuditAction::UserLogin => "UserLogin"@,
        AuditAction::UserLogout => "UserLogout"@,
        AuditAction::UserRegister => "UserRegister"@,
        AuditAction::LoginFailed => "LoginFailed"@,
        AuditAction::ProfileUpdate => "ProfileUpdate"@,
        AuditAction::PasswordChange => "PasswordChange"@,
        AuditAction::ColorChange => "ColorChange"@,
        AuditAction::MessageSent => "MessageSent"@,
        AuditAction::MessageDeleted => "MessageDeleted"@,
        AuditAction::ChannelJoined => "ChannelJoined"@,
        AuditAction::ChannelLeft => "ChannelLeft"@,
        AuditAction::DMSent => "DMSent"@,
        AuditAction::ThreadCreated => "ThreadCreated"@,
        AuditAction::PostCreated => "PostCreated"@,
        AuditAction::PostDeleted => "PostDeleted"@,
        AuditAction::ThreadDeleted => "ThreadDeleted"@,
        AuditAction::UserBanned => "UserBanned"@,
        AuditAction::UserUnbanned => "UserUnbanned"@,
        AuditAction::UserWarned => "UserWarned"@,
        AuditAction::MessageModerated => "MessageModerated"@,
        AuditAction::ServerInviteSent => "ServerInviteSent"@,
        AuditAction::ServerInviteAccepted => "ServerInviteAccepted"@,
        AuditAction::ServerInviteDeclined => "ServerInviteDeclined"@,
        AuditAction::ConfigurationChanged => "ConfigurationChanged"@,
        AuditAction::UserRoleChanged => "UserRoleChanged"@,
        AuditAction::ChannelCreated => "ChannelCreated"@,
        AuditAction::ChannelDeleted => "ChannelDeleted"@,
    }
}

impl AuditAction {
    /// The name of the action as the log writes it.
    pub fn name(&self) -> (s: &'static str)
        ensures
            s@ == action_name(*self),
    {
        match self {
            AuditAction::UserLogin => "UserLogin",
            AuditAction::UserLogout => "UserLogout",
            AuditAction::UserRegister => "UserRegister",
            AuditAction::LoginFailed => "LoginFailed",
            AuditAction::ProfileUpdate => "ProfileUpdate",
            AuditAction::PasswordChange => "PasswordChange",
            AuditAction::ColorChange => "ColorChange",
            AuditAction::MessageSent => "MessageSent",
            AuditAction::MessageDeleted => "MessageDeleted",
            AuditAction::ChannelJoined => "ChannelJoined",
            AuditAction::ChannelLeft => "ChannelLeft",
            AuditAction::DMSent => "DMSent",
            AuditAction::ThreadCreated => "ThreadCreated",
            AuditAction::PostCreated => "PostCreated",
            AuditAction::PostDeleted => "PostDeleted",
            AuditAction::ThreadDeleted => "ThreadDeleted",
            AuditAction::UserBanned => "UserBanned",
            AuditAction::UserUnbanned => "UserUnbanned",
            AuditAction::UserWarned => "UserWarned",
            AuditAction::MessageModerated => "MessageModerated",
            AuditAction::ServerInviteSent => "ServerInviteSent",
            AuditAction::ServerInviteAccepted => "ServerInviteAccepted",
            AuditAction::ServerInviteDeclined => "ServerInviteDeclined",
            AuditAction::ConfigurationChanged => "ConfigurationChanged",
            AuditAction::UserRoleChanged => "UserRoleChanged",
            AuditAction::ChannelCreated => "ChannelCreated",
            AuditAction::ChannelDeleted => "ChannelDeleted",
        }
    }
}

/// The current time, in whole seconds since the Unix epoch (`chrono::Utc::now().timestamp()`).
/// Nothing is claimed of its value.
#[verifier::external_body]
pub(crate) fn unix_timestamp_now() -> (t: i64) {
    chrono::Utc::now().timestamp()
}

/// One entry of the audit log.
#[derive(Debug, Clone)]
pub struct AuditEntry {
    pub id: u128,
    pub timestamp: i64,
    pub action: AuditAction,
    pub user_id: Option<u128>,
    pub target_user_id: Option<u128>,
    /// Channel, thread, post, etc.
    pub target_id: Option<u128>,
    pub ip_address: Option<String>,
    /// Key and value pairs; the record builders give each key at most once.
    pub metadata: Vec<(String, String)>,
    pub details: Option<String>,
}

/// Summary figures of the audit log.
#[derive(Debug, Clone)]
pub struct AuditStats {
    pub total_entries: usize,
    pub unique_users: usize,
    pub actions_by_type: Vec<(String, usize)>,
    pub most_active_users: Vec<(u128, usize)>,
}

/// The text of an optional identifier in a log line.
pub open spec fn id_or_none(id: Option<u128>) -> Seq<char> {
    match id {
        Some(u) => uuid_text(u),
        None => "None"@,
    }
}

/// The text of an optional string, with a stand-in when absent.
pub open spec fn text_or(s: Option<String>, absent: Seq<char>) -> Seq<char> {
    match s {
        Some(t) => t@,
        None => absent,
    }
}

/// The line that the audit log file gets for an entry: time, action, user, target
/// user, target, address and details, separated by commas.
pub open spec fn log_line(e: AuditEntry) -> Seq<char> {
    signed_decimal_text(e.timestamp as int) + ","@ + action_name(e.action) + ","@ + id_or_none(e.user_id) + ","@
        + id_or_none(e.target_user_id) + ","@ + id_or_none(e.target_id) + ","@ + text_or(e.ip_address, "None"@)
        + ","@ + text_or(e.details, Seq::empty()) + "\n"@
}

fn append_id_or_none(s: &mut String, id: Option<u128>)
    ensures
        final(s)@ == old(s)@ + id_or_none(id),
{
    match id {
        Some(u) => {
            let t = uuid_to_string(u);
            s.append(t.as_str());
        },
        None => s.append("None"),
    }
}

/// The details of an authentication event.
pub open spec fn auth_details(action: AuditAction, username: Seq<char>, success: bool) -> Seq<char> {
    if success {
        "Successful "@ + (match action {
            AuditAction::UserLogin => "login"@,
            AuditAction::UserRegister => "registration"@,
            _ => "authentication"@,
        }) + " for user: "@ + username
    } else {
        "Failed "@ + (match action {
            AuditAction::LoginFailed => "login"@,
            _ => "authentication"@,
        }) + " attempt for user: "@ + username
    }
}

/// The details of a moderation action.
pub open spec fn moderation_details(action: AuditAction) -> Option<Seq<char>> {
    match action {
        AuditAction::UserBanned => Some("User banned by moderator"@),
        AuditAction::UserUnbanned => Some("User unbanned by moderator"@),
        AuditAction::UserWarned => Some("User warned by moderator"@),
        AuditAction::MessageModerated => Some("Message moderated"@),
        _ => None,
    }
}

/// The longest content preview, in bytes.
pub const PREVIEW_BYTES: usize = 100;

/// Whether the preview of a content would cut a character in two: the content is
/// longer than the preview and byte 100 falls inside a character.
pub open spec fn preview_cuts_char(content: Seq<char>) -> bool {
    let b = vstd::utf8::encode_utf8(content);
    b.len() > PREVIEW_BYTES && !vstd::utf8::is_char_boundary(b, PREVIEW_BYTES as int)
}

/// No two metadata pairs share a key.
pub open spec fn keys_distinct(m: Seq<(String, String)>) -> bool {
    forall|i: int, j: int| 0 <= i < j < m.len() ==> #[trigger] m[i].0@ != #[trigger] m[j].0@
}

/// Audit logging of user actions.
pub struct AuditService;

impl AuditService {
    /// A new entry for an action, with a fresh identifier and the current time.
    pub fn create_entry(
        action: AuditAction,
        user_id: Option<u128>,
        target_user_id: Option<u128>,
        target_id: Option<u128>,
        ip_address: Option<String>,
        metadata: Vec<(String, String)>,
        details: Option<String>,
    ) -> (e: AuditEntry)
        ensures
            e.action == action,
            e.user_id == user_id,
            e.target_user_id == target_user_id,
            e.target_id == target_id,
            e.ip_address == ip_address,
            e.metadata == metadata,
            e.details == details,
    {
        AuditEntry {
            id: new_uuid(),
            timestamp: unix_timestamp_now(),
            action,
            user_id,
            target_user_id,
            target_id,
            ip_address,
            metadata,
            details,
        }
    }

    /// The line that the audit log file gets for an entry.
    pub fn log_line(entry: &AuditEntry) -> (s: String)
        ensures
            s@ == log_line(*entry),
    {
        let mut s = format_i64(entry.timestamp);
        s.append(",");
        s.append(entry.action.name());
        s.append(",");
        append_id_or_none(&mut s, entry.user_id);
        s.append(",");
        append_id_or_none(&mut s, entry.target_user_id);
        s.append(",");
        append_id_or_none(&mut s, entry.target_id);
        s.append(",");
        match &entry.ip_address {
            Some(ip) => s.append(ip.as_str()),
            None => s.append("None"),
        }
        s.append(",");
        match &entry.details {
            Some(d) => s.append(d.as_str()),
            None => {},
        }
        s.append("\n");
        s
    }

    /// The metadata and details of an authentication event.
    pub fn auth_event_record(action: AuditAction, username: &str, success: bool) -> (r: (Vec<(String, String)>, Option<String>))
        ensures
            r.0@.len() == 2,
            r.0@[0].0@ == "username"@ && r.0@[0].1@ == username@,
            r.0@[1].0@ == "success"@ && r.0@[1].1@ == (if success { "true"@ } else { "false"@ }),
            r.1 matches Some(d) && d@ == auth_details(action, username@, success),
            keys_distinct(r.0@),
    {
        let mut metadata: Vec<(String, String)> = Vec::new();
        metadata.push((String::from_str("username"), String::from_str(username)));
        metadata.push((String::from_str("success"), String::from_str(if success { "true" } else { "false" })));
        let mut d = String::from_str(if success { "Successful " } else { "Failed " });
        if success {
            match action {
                AuditAction::UserLogin => d.append("login"),
                AuditAction::UserRegister => d.append("registration"),
                _ => d.append("authentication"),
            }
            d.append(" for user: ");
        } else {
            match action {
                AuditAction::LoginFailed => d.append("login"),
                _ => d.append("authentication"),
            }
            d.append(" attempt for user: ");
        }
        d.append(username);
        proof {
            reveal_strlit("username");
            reveal_strlit("success");
        }
        (metadata, Some(d))
    }

    /// The metadata and details of a message action: the channel and message (when
    /// given) and a preview of at most the first hundred bytes of the content.
    pub fn message_action_record(message_id: Option<u128>, channel_id: Option<u128>, content_preview: Option<&str>) -> (r: (
        Vec<(String, String)>,
        Option<String>,
    ))
        requires
            content_preview matches Some(c) ==> !preview_cuts_char(c@),
        ensures
            r.0@.len() == (if channel_id is Some { 1int } else { 0int }) + (if message_id is Some { 1int } else { 0int }),
            channel_id matches Some(c) ==> r.0@[0].0@ == "channel_id"@ && r.0@[0].1@ == uuid_text(c),
            message_id matches Some(m) ==> r.0@.last().0@ == "message_id"@ && r.0@.last().1@ == uuid_text(m),
            keys_distinct(r.0@),
            match content_preview {
                None => r.1.is_none(),
                Some(c) => r.1 matches Some(d) && {
                    if c.len() > PREVIEW_BYTES {
                        exists|p: Seq<char>| vstd::utf8::encode_utf8(p) == vstd::utf8::encode_utf8(c@).take(PREVIEW_BYTES as int)
                            && d@ == "Message content preview: "@ + p + "..."@
                    } else {
                        d@ == "Message content preview: "@ + c@
                    }
                },
            },
    {
        let mut metadata: Vec<(String, String)> = Vec::new();
        match channel_id {
            Some(c) => metadata.push((String::from_str("channel_id"), uuid_to_string(c))),
            None => {},
        }
        match message_id {
            Some(m) => metadata.push((String::from_str("message_id"), uuid_to_string(m))),
            None => {},
        }
        let details = match content_preview {
            None => None,
            Some(c) => {
                let mut d = String::from_str("Message content preview: ");
                if c.len() > PREVIEW_BYTES {
                    let (head, _) = c.split_at(PREVIEW_BYTES);
                    d.append(head);
                    d.append("...");
                    assert(vstd::utf8::encode_utf8(head@) == vstd::utf8::encode_utf8(c@).take(PREVIEW_BYTES as int));
                } else {
                    d.append(c);
                }
                Some(d)
            },
        };
        proof {
            reveal_strlit("channel_id");
            reveal_strlit("message_id");
            assert("channel_id"@[0] != "message_id"@[0]);
        }
        (metadata, details)
    }

    /// The metadata and details of a moderation action.
    pub fn moderation_action_record(action: AuditAction, reason: Option<&str>, duration: Option<&str>) -> (r: (
        Vec<(String, String)>,
        Option<String>,
    ))
        ensures
            r.0@.len() == (if reason is Some { 1int } else { 0int }) + (if duration is Some { 1int } else { 0int }),
            reason matches Some(x) ==> r.0@[0].0@ == "reason"@ && r.0@[0].1@ == x@,
            duration matches Some(x) ==> r.0@.last().0@ == "duration"@ && r.0@.last().1@ == x@,
            keys_distinct(r.0@),
            r.1.is_none() <==> moderation_details(action).is_none(),
            r.1 matches Some(d) ==> moderation_details(action) == Some(d@),
    {
        let mut metadata: Vec<(String, String)> = Vec::new();
        match reason {
            Some(x) => metadata.push((String::from_str("reason"), String::from_str(x))),
            None => {},
        }
        match duration {
            Some(x) => metadata.push((String::from_str("duration"), String::from_str(x))),
            None => {},
        }
        let details = match action {
            AuditAction::UserBanned => Some(String::from_str("User banned by moderator")),
            AuditAction::UserUnbanned => Some(String::from_str("User unbanned by moderator")),
            AuditAction::UserWarned => Some(String::from_str("User warned by moderator")),
            AuditAction::MessageModerated => Some(String::from_str("Message moderated")),
            _ => None,
        };
        proof {
            reveal_strlit("reason");
            reveal_strlit("duration");
        }
        (metadata, details)
    }

    /// The audit entries matching a query; none are kept in memory, so none are found.
    pub fn get_audit_logs(
        limit: usize,
        offset: usize,
        user_filter: Option<u128>,
        action_filter: Option<AuditAction>,
        start_time: Option<i64>,
        end_time: Option<i64>,
    ) -> (r: Result<Vec<AuditEntry>, String>)
        ensures
            r matches Ok(v) && v@.len() == 0,
    {
        Ok(Vec::new())
    }

    /// The audit statistics over a time range; nothing is kept in memory, so all
    /// figures are zero.
    pub fn get_audit_stats(start_time: Option<i64>, end_time: Option<i64>) -> (r: Result<AuditStats, String>)
        ensures
            r matches Ok(s) && s.total_entries == 0 && s.unique_users == 0 && s.actions_by_type@.len() == 0
                && s.most_active_users@.len() == 0,
    {
        Ok(AuditStats { total_entries: 0, unique_users: 0, actions_by_type: Vec::new(), most_active_users: Vec::new() })
    }
}

} // verus!
