use vstd::prelude::*;

verus! {

/// The role of a user on the server.
#[derive(Debug, Clone, Copy, PartialEq, Eq, Structural)]
pub enum UserRole {
    Admin,
    Moderator,
    User,
}

/// Whether a user is connected.
#[derive(Debug, Clone, Copy, PartialEq, Eq, Structural)]
pub enum UserStatus {
    Connected,
    Offline,
}

/// The display color of a user, held as the color's name (or `#rrggbb`).
#[derive(Debug, Clone)]
pub struct UserColor(pub String);

/// A user as other users see them.
#[derive(Debug, Clone)]
pub struct User {
    pub id: u128,
    pub username: String,
    pub color: UserColor,
    pub role: UserRole,
    pub profile_pic: Option<String>,
    pub cover_banner: Option<String>,
    pub status: UserStatus,
}

/// A user without images, for lists.
#[derive(Debug, Clone)]
pub struct UserInfo {
    pub id: u128,
    pub username: String,
    pub color: UserColor,
    pub role: UserRole,
    pub status: UserStatus,
}

/// A user's full profile.
#[derive(Debug, Clone)]
pub struct UserProfile {
    pub id: u128,
    pub username: String,
    pub hash: String,
    pub color: UserColor,
    pub role: UserRole,
    pub bio: Option<String>,
    pub url1: Option<String>,
    pub url2: Option<String>,
    pub url3: Option<String>,
    pub location: Option<String>,
    pub profile_pic: Option<String>,
    pub cover_banner: Option<String>,
}

/// A message posted in a channel.
#[derive(Debug, Clone)]
pub struct ChannelMessage {
    pub id: u128,
    pub channel_id: u128,
    pub sent_by: u128,
    pub timestamp: i64,
    pub content: String,
}

/// A direct message between two users.
#[derive(Debug, Clone)]
pub struct DirectMessage {
    pub id: u128,
    pub from: u128,
    pub to: u128,
    pub timestamp: i64,
    pub content: String,
}

/// The kind of a notification.
#[derive(Debug, Clone)]
pub enum NotificationType {
    ThreadReply,
    DM,
    Announcement,
    Mention,
    Other(String),
}

/// A notification stored for a user.
#[derive(Debug, Clone)]
pub struct Notification {
    pub id: u128,
    pub user_id: u128,
    pub notif_type: NotificationType,
    pub related_id: u128,
    pub created_at: i64,
    pub read: bool,
    pub extra: Option<String>,
}

/// The state of a server invite.
#[derive(Debug, Clone, Copy, PartialEq, Eq, Structural)]
pub enum ServerInviteStatus {
    Pending,
    Accepted,
    Declined,
    Expired,
}

/// Which users may read and write a channel.
#[derive(Debug, Clone)]
pub struct ChannelPermissions {
    pub can_read: Vec<u128>,
    pub can_write: Vec<u128>,
}

/// A channel of a server.
#[derive(Debug, Clone)]
pub struct Channel {
    pub id: u128,
    pub server_id: u128,
    pub name: String,
    pub description: String,
    pub permissions: ChannelPermissions,
    pub userlist: Vec<u128>,
    pub messages: Vec<ChannelMessage>,
}

/// A community server with its channels.
#[derive(Debug, Clone)]
pub struct Server {
    pub id: u128,
    pub name: String,
    pub description: String,
    pub public: bool,
    pub invite_code: Option<String>,
    pub icon: Option<String>,
    pub banner: Option<String>,
    pub owner: u128,
    pub mods: Vec<u128>,
    pub userlist: Vec<u128>,
    pub channels: Vec<Channel>,
}

/// An invitation of one user by another to join a server.
#[derive(Debug, Clone)]
pub struct ServerInvite {
    pub id: u128,
    pub from_user: User,
    pub to_user_id: u128,
    pub server: Server,
    pub timestamp: i64,
    pub status: ServerInviteStatus,
}

/// A forum post.
#[derive(Debug, Clone)]
pub struct Post {
    pub id: u128,
    pub author: User,
    pub content: String,
    pub timestamp: i64,
    pub reply_to: Option<u128>,
}

/// A forum thread with its posts.
#[derive(Debug, Clone)]
pub struct Thread {
    pub id: u128,
    pub title: String,
    pub author: User,
    pub posts: Vec<Post>,
    pub timestamp: i64,
}

/// A forum with its threads.
#[derive(Debug, Clone)]
pub struct Forum {
    pub id: u128,
    pub name: String,
    pub description: String,
    pub threads: Vec<Thread>,
}

/// A forum post whose author carries no images.
#[derive(Debug, Clone)]
pub struct PostLightweight {
    pub id: u128,
    pub author: UserInfo,
    pub content: String,
    pub timestamp: i64,
    pub reply_to: Option<u128>,
}

/// A forum thread whose authors carry no images.
#[derive(Debug, Clone)]
pub struct ThreadLightweight {
    pub id: u128,
    pub title: String,
    pub author: UserInfo,
    pub posts: Vec<PostLightweight>,
    pub timestamp: i64,
}

/// A forum whose authors carry no images.
#[derive(Debug, Clone)]
pub struct ForumLightweight {
    pub id: u128,
    pub name: String,
    pub description: String,
    pub threads: Vec<ThreadLightweight>,
}

} // verus!
