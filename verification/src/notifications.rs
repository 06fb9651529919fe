use vstd::prelude::*;
use crate::model::NotificationType;
use crate::records::notification_kind;

verus! {

/// The stored kind of a direct-message notification.
pub const DM_KIND: &'static str = "DM";

/// The stored kind of a mention notification.
pub const MENTION_KIND: &'static str = "Mention";

/// The stored kind of a forum-reply notification.
pub const THREAD_REPLY_KIND: &'static str = "ThreadReply";

/// A notification stored under one of these kinds reads back as that kind.
pub proof fn lemma_notification_kinds_read_back()
    ensures
        notification_kind(DM_KIND@) == NotificationType::DM,
        notification_kind(MENTION_KIND@) == NotificationType::Mention,
        notification_kind(THREAD_REPLY_KIND@) == NotificationType::ThreadReply,
{
    reveal_strlit("DM");
    reveal_strlit("Mention");
    reveal_strlit("ThreadReply");
    reveal_strlit("Announcement");
    assert("Mention"@.len() != "ThreadReply"@.len());
    assert("Mention"@.len() != "Announcement"@.len());
    assert("Mention"@.len() != "DM"@.len());
}

/// Notifications of direct messages, mentions and forum replies.
pub struct NotificationService;

impl NotificationService {
    /// The detail stored with a direct-message notification.
    pub fn dm_extra(from_username: &str) -> (s: String)
        ensures
            s@ == "From: "@ + from_username@,
    {
        let mut s = String::from_str("From: ");
        s.append(from_username);
        s
    }

    /// The detail stored with a mention notification.
    pub fn mention_extra(content: &str) -> (s: String)
        ensures
            s@ == "Message: "@ + content@,
    {
        let mut s = String::from_str("Message: ");
        s.append(content);
        s
    }

    /// The detail stored with a forum-reply notification.
    pub fn thread_reply_extra(from_username: &str) -> (s: String)
        ensures
            s@ == "Reply from: "@ + from_username@,
    {
        let mut s = String::from_str("Reply from: ");
        s.append(from_username);
        s
    }

    /// The text of the immediate notice of a forum reply.
    pub fn thread_reply_message(from_username: &str) -> (s: String)
        ensures
            s@ == from_username@ + " replied to your forum post"@,
    {
        let mut s = String::from_str(from_username);
        s.append(" replied to your forum post");
        s
    }
}

} // verus!
