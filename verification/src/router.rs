use vstd::prelude::*;

verus! {

/// The most avatars that one request may ask for.
pub const MAX_AVATARS_PER_REQUEST: usize = 50;

/// The page size of the legacy message requests.
pub const LEGACY_MESSAGE_LIMIT: usize = 50;

/// The users whose avatars a request is served for: the first fifty asked for.
pub fn limit_avatar_request(user_ids: Vec<u128>) -> (r: Vec<u128>)
    ensures
        r@ == (if user_ids@.len() > MAX_AVATARS_PER_REQUEST {
            user_ids@.take(MAX_AVATARS_PER_REQUEST as int)
        } else {
            user_ids@
        }),
{
    let mut ids = user_ids;
    if ids.len() > MAX_AVATARS_PER_REQUEST {
        ids.truncate(MAX_AVATARS_PER_REQUEST);
    }
    ids
}

/// The kinds of request that a client sends.
#[derive(Clone, Copy, Debug, PartialEq, Eq, Structural)]
pub enum RequestKind {
    Register,
    Login,
    Logout,
    UpdatePassword,
    UpdateColor,
    UpdateProfile,
    GetProfile,
    GetUserList,
    SendChannelMessage,
    SendDirectMessage,
    GetChannelMessages,
    GetDirectMessages,
    GetChannelUserList,
    GetDMUserList,
    GetChannelMessagesPaginated,
    GetDirectMessagesPaginated,
    GetServers,
    GetForums,
    CreateForum,
    DeleteForum,
    CreateThread,
    CreatePost,
    CreatePostReply,
    DeletePost,
    DeleteThread,
    SendServerInvite,
    RespondToServerInvite,
    AcceptServerInviteFromUser,
    DeclineServerInviteFromUser,
    GetNotifications,
    MarkNotificationRead,
    GetCacheStats,
    InvalidateImageCache,
    GetUserAvatars,
}

/// What the router does with a request before any handler work: serve it, drop it
/// without a reply, or answer it with an error notification.
#[derive(Clone, Debug)]
pub enum Admission {
    Serve,
    Ignore,
    Refuse(String),
}

/// The requests that are served for a connection on which nobody has logged in.
pub open spec fn open_to_anonymous(kind: RequestKind) -> bool {
    match kind {
        RequestKind::Register | RequestKind::Login | RequestKind::Logout
        | RequestKind::GetProfile | RequestKind::GetUserList
        | RequestKind::GetChannelMessages | RequestKind::GetChannelUserList
        | RequestKind::GetChannelMessagesPaginated | RequestKind::GetForums
        | RequestKind::MarkNotificationRead | RequestKind::GetCacheStats
        | RequestKind::InvalidateImageCache | RequestKind::GetUserAvatars => true,
        _ => false,
    }
}

/// The error notification that answers a request needing a login when nobody has
/// logged in; `None` where such a request is dropped silently.
pub open spec fn anonymous_refusal(kind: RequestKind) -> Option<Seq<char>> {
    match kind {
        RequestKind::UpdateProfile => Some("Must be logged in to update profile"@),
        RequestKind::GetDMUserList => Some("Must be logged in to get DM user list"@),
        RequestKind::GetDirectMessagesPaginated => Some("Must be logged in to get direct messages"@),
        RequestKind::CreateForum => Some("Must be logged in to create forums"@),
        RequestKind::DeleteForum => Some("Must be logged in to delete forums"@),
        RequestKind::CreateThread => Some("Must be logged in to create threads"@),
        RequestKind::CreatePost => Some("Must be logged in to create posts"@),
        RequestKind::CreatePostReply => Some("Must be logged in to create replies"@),
        RequestKind::DeletePost => Some("Must be logged in to delete posts"@),
        RequestKind::DeleteThread => Some("Must be logged in to delete threads"@),
        _ => None,
    }
}

/// The admission of a request of kind `kind` on a connection where someone has
/// (`logged_in`) or has not logged in.
pub open spec fn admission_of(kind: RequestKind, logged_in: bool, a: Admission) -> bool {
    if logged_in || open_to_anonymous(kind) {
        a is Serve
    } else {
        match anonymous_refusal(kind) {
            Some(m) => a matches Admission::Refuse(e) && e@ == m,
            None => a is Ignore,
        }
    }
}

/// Decide whether a request is served, dropped or refused, from its kind and
/// whether someone has logged in on the connection.
pub fn admit_request(kind: RequestKind, logged_in: bool) -> (r: Admission)
    ensures
        admission_of(kind, logged_in, r),
{
    if logged_in {
        return Admission::Serve;
    }
    match kind {
        RequestKind::Register | RequestKind::Login | RequestKind::Logout
        | RequestKind::GetProfile | RequestKind::GetUserList
        | RequestKind::GetChannelMessages | RequestKind::GetChannelUserList
        | RequestKind::GetChannelMessagesPaginated | RequestKind::GetForums
        | RequestKind::MarkNotificationRead | RequestKind::GetCacheStats
        | RequestKind::InvalidateImageCache | RequestKind::GetUserAvatars => Admission::Serve,
        RequestKind::UpdateProfile => Admission::Refuse(String::from_str("Must be logged in to update profile")),
        RequestKind::GetDMUserList => Admission::Refuse(String::from_str("Must be logged in to get DM user list")),
        RequestKind::GetDirectMessagesPaginated => Admission::Refuse(String::from_str("Must be logged in to get direct messages")),
        RequestKind::CreateForum => Admission::Refuse(String::from_str("Must be logged in to create forums")),
        RequestKind::DeleteForum => Admission::Refuse(String::from_str("Must be logged in to delete forums")),
        RequestKind::CreateThread => Admission::Refuse(String::from_str("Must be logged in to create threads")),
        RequestKind::CreatePost => Admission::Refuse(String::from_str("Must be logged in to create posts")),
        RequestKind::CreatePostReply => Admission::Refuse(String::from_str("Must be logged in to create replies")),
        RequestKind::DeletePost => Admission::Refuse(String::from_str("Must be logged in to delete posts")),
        RequestKind::DeleteThread => Admission::Refuse(String::from_str("Must be logged in to delete threads")),
        _ => Admission::Ignore,
    }
}

/// A logged-in connection has every request served, and no request is ever refused
/// or dropped there.
pub proof fn lemma_logged_in_always_served(kind: RequestKind, a: Admission)
    requires
        admission_of(kind, true, a),
    ensures
        a is Serve,
{
}

} // verus!
