use nexus_server::errors::ServerError;
use nexus_server::forums::{
    check_forum_action, check_post_deletion, check_thread_deletion, notifies_reply_author, post_from_row,
    try_post_from_row, try_post_lightweight_from_row,
};
use nexus_server::invites::{try_invite_from_row, InviteCheckOutcome, InviteCheckStep, InviteRow, InviteService};
use nexus_server::model::{
    NotificationType, Server, ServerInvite, ServerInviteStatus, User, UserColor, UserInfo, UserRole, UserStatus,
};
use nexus_server::records::{
    channel_message_from_row, channel_permissions_from_rows, direct_message_from_row, invite_status_to_str,
    new_user_profile, notification_from_row, parse_id, parse_invite_status, parse_notification_type,
    profile_from_row, try_profile_from_row, try_user_from_row, try_user_info_from_row, user_from_profile,
    user_from_row, user_info_from_row, user_without_images, ProfileRow, UserRow,
};
use nexus_server::notifications::{DM_KIND, MENTION_KIND, THREAD_REPLY_KIND};
use nexus_server::servers::{default_channels, ids_from_texts, needs_default_server, no_admin_error, try_ids_from_texts};

const A: &str = "550e8400-e29b-41d4-a716-446655440000";
const A_ID: u128 = 0x550e8400_e29b_41d4_a716_446655440000;
const B: &str = "00000000-0000-0000-0000-000000000001";

fn row(id: &str) -> UserRow {
    UserRow {
        id: id.to_string(),
        username: "neo".to_string(),
        color: "Green".to_string(),
        role: "Moderator".to_string(),
        profile_pic: Some("pic".to_string()),
        cover_banner: None,
    }
}

fn user(id: u128, role: UserRole) -> User {
    User {
        id,
        username: "trinity".to_string(),
        color: UserColor("Red".to_string()),
        role,
        profile_pic: None,
        cover_banner: None,
        status: UserStatus::Offline,
    }
}

#[test]
fn ids_parse_with_uuid() {
    assert_eq!(parse_id(A), Ok(A_ID));
    assert_eq!(parse_id(B), Ok(1));
    assert_eq!(parse_id("550E8400-E29B-41D4-A716-446655440000"), Ok(A_ID));
    let e = parse_id("not-a-uuid").unwrap_err();
    assert!(!e.is_empty());
    assert!(parse_id("").is_err());
}

#[test]
fn user_rows_read() {
    let u = user_from_row(row(A), UserStatus::Connected);
    assert_eq!(u.id, A_ID);
    assert_eq!(u.username, "neo");
    assert_eq!(u.color.0, "Green");
    assert_eq!(u.role, UserRole::Moderator);
    assert_eq!(u.profile_pic, Some("pic".to_string()));
    assert_eq!(u.status, UserStatus::Connected);
    let i = user_info_from_row(row(B), UserStatus::Offline);
    assert_eq!(i.id, 1);
    assert_eq!(i.status, UserStatus::Offline);
    assert!(try_user_from_row(row("garbage"), UserStatus::Offline).is_none());
    assert!(try_user_info_from_row(row("garbage"), UserStatus::Offline).is_none());
    assert_eq!(try_user_info_from_row(row(A), UserStatus::Offline).unwrap().id, A_ID);
}

#[test]
fn profile_rows_read_without_hash() {
    let r = ProfileRow {
        id: A.to_string(),
        username: "morpheus".to_string(),
        color: "#ffffff".to_string(),
        role: "Admin".to_string(),
        bio: Some("captain".to_string()),
        url1: None,
        url2: Some("u2".to_string()),
        url3: None,
        location: Some("Zion".to_string()),
        profile_pic: None,
        cover_banner: Some("b".to_string()),
    };
    let p = profile_from_row(r.clone());
    assert_eq!(p.id, A_ID);
    assert_eq!(p.hash, "");
    assert_eq!(p.role, UserRole::Admin);
    assert_eq!(p.bio, Some("captain".to_string()));
    assert_eq!(p.location, Some("Zion".to_string()));
    assert_eq!(p.cover_banner, Some("b".to_string()));
    assert!(try_profile_from_row(ProfileRow { id: "x".to_string(), ..r }).is_none());
}

#[test]
fn new_profiles_and_users() {
    let p = new_user_profile(9, "tank".to_string(), "Green", "User");
    assert_eq!(p.id, 9);
    assert_eq!(p.hash, "");
    assert_eq!(p.color.0, "Green");
    assert_eq!(p.role, UserRole::User);
    assert!(p.bio.is_none() && p.profile_pic.is_none());
    let u = user_from_profile(p, UserStatus::Connected);
    assert_eq!(u.id, 9);
    assert_eq!(u.username, "tank");
    assert_eq!(u.status, UserStatus::Connected);
    let info = UserInfo {
        id: 3,
        username: "dozer".to_string(),
        color: UserColor("Blue".to_string()),
        role: UserRole::Admin,
        status: UserStatus::Offline,
    };
    let u = user_without_images(info);
    assert_eq!(u.id, 3);
    assert_eq!(u.role, UserRole::Admin);
    assert!(u.profile_pic.is_none() && u.cover_banner.is_none());
}

#[test]
fn message_rows_read_or_report_first_bad_id() {
    let m = channel_message_from_row(5, A, B, 100, "hi".to_string()).unwrap();
    assert_eq!((m.id, m.channel_id, m.sent_by, m.timestamp), (A_ID, 5, 1, 100));
    assert_eq!(m.content, "hi");
    assert!(channel_message_from_row(5, "bad", B, 1, String::new()).is_err());
    let d = direct_message_from_row(A, B, A, 7, "yo".to_string()).unwrap();
    assert_eq!((d.id, d.from, d.to, d.timestamp), (A_ID, 1, A_ID, 7));
    assert_eq!(direct_message_from_row(A, B, "zz", 7, String::new()).unwrap_err(), parse_id("zz").unwrap_err());
}

#[test]
fn notification_rows_read() {
    let n = notification_from_row(B, A, "DM", B, 55, 1, Some("From: x".to_string())).unwrap();
    assert_eq!(n.id, A_ID);
    assert_eq!(n.user_id, 1);
    assert!(matches!(n.notif_type, NotificationType::DM));
    assert!(n.read);
    assert_eq!(n.created_at, 55);
    let n = notification_from_row(B, A, "Custom", B, 1, 0, None).unwrap();
    assert!(matches!(n.notif_type, NotificationType::Other(ref s) if s == "Custom"));
    assert!(!n.read);
    assert!(notification_from_row("bad", A, "DM", B, 1, 0, None).is_err());
    assert!(matches!(parse_notification_type("ThreadReply"), NotificationType::ThreadReply));
    assert!(matches!(parse_notification_type("Mention"), NotificationType::Mention));
    assert!(matches!(parse_notification_type("Announcement"), NotificationType::Announcement));
}

#[test]
fn invite_status_names_round_trip() {
    for s in [ServerInviteStatus::Pending, ServerInviteStatus::Accepted, ServerInviteStatus::Declined, ServerInviteStatus::Expired] {
        assert_eq!(parse_invite_status(invite_status_to_str(s)), s);
    }
    assert_eq!(invite_status_to_str(ServerInviteStatus::Declined), "Declined");
    assert_eq!(parse_invite_status("whatever"), ServerInviteStatus::Pending);
}

#[test]
fn channel_permissions_split_read_and_write() {
    let rows = vec![(A.to_string(), 1, 0), (B.to_string(), 1, 1), (A.to_string(), 0, 1)];
    let p = channel_permissions_from_rows(&rows).unwrap();
    assert_eq!(p.can_read, vec![A_ID, 1]);
    assert_eq!(p.can_write, vec![1, A_ID]);
    assert!(channel_permissions_from_rows(&vec![("nope".to_string(), 1, 1)]).is_err());
    let empty = channel_permissions_from_rows(&Vec::new()).unwrap();
    assert!(empty.can_read.is_empty() && empty.can_write.is_empty());
}

#[test]
fn deletion_permissions() {
    assert_eq!(check_post_deletion("a", "a", "User"), Ok(()));
    assert_eq!(check_post_deletion("a", "b", "Moderator"), Ok(()));
    assert_eq!(check_post_deletion("a", "b", "Admin"), Ok(()));
    assert_eq!(
        check_post_deletion("a", "b", "User"),
        Err("Permission denied: You can only delete your own posts".to_string())
    );
    assert_eq!(
        check_thread_deletion("a", "b", "admin"),
        Err("Permission denied: You can only delete your own threads".to_string())
    );
    assert_eq!(check_thread_deletion("x", "x", ""), Ok(()));
}

#[test]
fn forum_actions_need_login_and_sometimes_admin() {
    assert_eq!(check_forum_action(&None, false, "create threads"), Err("Must be logged in to create threads".to_string()));
    assert_eq!(check_forum_action(&Some(user(1, UserRole::User)), false, "create threads"), Ok(()));
    assert_eq!(
        check_forum_action(&Some(user(1, UserRole::Moderator)), true, "create forums"),
        Err("Only admins can create forums".to_string())
    );
    assert_eq!(check_forum_action(&Some(user(1, UserRole::Admin)), true, "delete forums"), Ok(()));
}

#[test]
fn posts_read_with_reply_targets() {
    let p = post_from_row(A, user(1, UserRole::User), "c".to_string(), 3, Some(B.to_string()));
    assert_eq!(p.id, A_ID);
    assert_eq!(p.reply_to, Some(1));
    let p = post_from_row(A, user(1, UserRole::User), "c".to_string(), 3, Some("junk".to_string()));
    assert_eq!(p.reply_to, None);
    assert!(try_post_from_row("bad", user(1, UserRole::User), String::new(), 0, None).is_none());
    let info = UserInfo { id: 1, username: String::new(), color: UserColor(String::new()), role: UserRole::User, status: UserStatus::Offline };
    assert_eq!(try_post_lightweight_from_row(B, info, String::new(), 0, None).unwrap().id, 1);
    assert!(notifies_reply_author(1, 2));
    assert!(!notifies_reply_author(2, 2));
}

fn server(id: u128) -> Server {
    Server {
        id,
        name: "s".to_string(),
        description: String::new(),
        public: true,
        invite_code: None,
        icon: None,
        banner: None,
        owner: 1,
        mods: vec![],
        userlist: vec![],
        channels: vec![],
    }
}

fn invite(to: u128, status: ServerInviteStatus) -> ServerInvite {
    ServerInvite { id: 77, from_user: user(1, UserRole::User), to_user_id: to, server: server(3), timestamp: 10, status }
}

#[test]
fn invite_check_sequence() {
    let s = InviteService::first_invite_check();
    assert_eq!(s, InviteCheckStep::SenderIsMember);
    assert!(matches!(
        InviteService::next_invite_check(s, false),
        InviteCheckOutcome::Refused(ServerError::Authorization(ref m)) if m == "You must be a member of this server to invite others"
    ));
    assert!(matches!(InviteService::next_invite_check(s, true), InviteCheckOutcome::Ask(InviteCheckStep::TargetIsMember)));
    assert!(matches!(
        InviteService::next_invite_check(InviteCheckStep::TargetIsMember, true),
        InviteCheckOutcome::Refused(ServerError::BadRequest(ref m)) if m == "User is already in this server"
    ));
    assert!(matches!(
        InviteService::next_invite_check(InviteCheckStep::TargetIsMember, false),
        InviteCheckOutcome::Ask(InviteCheckStep::AlreadyInvited)
    ));
    assert!(matches!(
        InviteService::next_invite_check(InviteCheckStep::AlreadyInvited, true),
        InviteCheckOutcome::Refused(ServerError::BadRequest(ref m)) if m == "Invite already sent to this user"
    ));
    assert!(matches!(InviteService::next_invite_check(InviteCheckStep::AlreadyInvited, false), InviteCheckOutcome::Approved));
}

#[test]
fn invite_responses() {
    assert!(matches!(
        InviteService::check_invite_response(&None, 2, true),
        Err(ServerError::NotFound(ref m)) if m == "Invite not found"
    ));
    assert!(matches!(
        InviteService::check_invite_response(&Some(invite(5, ServerInviteStatus::Pending)), 2, true),
        Err(ServerError::Forbidden(ref m)) if m == "Not authorized to respond to this invite"
    ));
    assert!(matches!(
        InviteService::check_invite_response(&Some(invite(2, ServerInviteStatus::Accepted)), 2, true),
        Err(ServerError::BadRequest(ref m)) if m == "Invite is no longer pending"
    ));
    assert_eq!(
        InviteService::check_invite_response(&Some(invite(2, ServerInviteStatus::Pending)), 2, true).ok(),
        Some(ServerInviteStatus::Accepted)
    );
    assert_eq!(
        InviteService::check_invite_response(&Some(invite(2, ServerInviteStatus::Pending)), 2, false).ok(),
        Some(ServerInviteStatus::Declined)
    );
    let updated = InviteService::with_status(invite(2, ServerInviteStatus::Pending), ServerInviteStatus::Declined);
    assert_eq!(updated.status, ServerInviteStatus::Declined);
    assert_eq!(updated.id, 77);
    assert!(matches!(InviteService::no_pending_invite_error(), ServerError::NotFound(ref m) if m == "No pending invite from this user"));
    assert_eq!(InviteService::response_confirmation(true), "Server invite accepted successfully!");
    assert_eq!(InviteService::response_confirmation(false), "Server invite declined successfully!");
    assert_eq!(
        InviteService::invite_message_content("bob", "Zion"),
        "🎮 SERVER INVITE: bob invited you to join 'Zion'!\n\nType /accept to accept or /decline to decline this invitation."
    );
}

fn invite_row(id: &str, color: &str) -> InviteRow {
    InviteRow {
        id: id.to_string(),
        from_user_id: B.to_string(),
        to_user_id: A.to_string(),
        server_id: B.to_string(),
        timestamp: 99,
        status: "Accepted".to_string(),
        username: "smith".to_string(),
        color: color.to_string(),
        role: "Admin".to_string(),
        profile_pic: None,
        cover_banner: None,
        server_name: "Matrix".to_string(),
        server_description: "d".to_string(),
        server_public: 0,
        invite_code: Some("code".to_string()),
        icon: None,
        banner: None,
        owner: A.to_string(),
    }
}

#[test]
fn invite_rows_read() {
    let inv = try_invite_from_row(invite_row(A, "#FF0000")).unwrap();
    assert_eq!(inv.id, A_ID);
    assert_eq!(inv.to_user_id, A_ID);
    assert_eq!(inv.status, ServerInviteStatus::Accepted);
    assert_eq!(inv.from_user.id, 1);
    assert_eq!(inv.from_user.color.0, "#ff0000");
    assert_eq!(inv.from_user.role, UserRole::Admin);
    assert_eq!(inv.from_user.status, UserStatus::Connected);
    assert_eq!(inv.server.name, "Matrix");
    assert!(!inv.server.public);
    assert_eq!(inv.server.owner, A_ID);
    assert!(inv.server.channels.is_empty());
    assert_eq!(try_invite_from_row(invite_row(A, "blue")).unwrap().from_user.color.0, "Reset");
    assert!(try_invite_from_row(invite_row("nope", "Red")).is_none());
    assert!(try_invite_from_row(invite_row(A, "#aé123")).is_none());
}

#[test]
fn server_helpers() {
    let ch = default_channels();
    assert_eq!(ch, vec![("general", "General discussion"), ("cyberdeck", "Tech talk"), ("random", "Off-topic")]);
    assert!(needs_default_server(0));
    assert!(!needs_default_server(1));
    assert_eq!(no_admin_error(), "No admin user found");
    assert_eq!(ids_from_texts(&vec![A.to_string(), B.to_string()]), vec![A_ID, 1]);
    assert_eq!(try_ids_from_texts(&vec![B.to_string()]), Some(vec![1]));
    assert_eq!(try_ids_from_texts(&vec![B.to_string(), "x".to_string()]), None);
}

#[test]
fn stored_notification_kinds_read_back() {
    assert!(matches!(parse_notification_type(DM_KIND), NotificationType::DM));
    assert!(matches!(parse_notification_type(MENTION_KIND), NotificationType::Mention));
    assert!(matches!(parse_notification_type(THREAD_REPLY_KIND), NotificationType::ThreadReply));
}
