use nexus_server::audit::{AuditAction, AuditService};
use nexus_server::broadcast::{BroadcastService, PeerEntry};
use nexus_server::chat::ChatService;
use nexus_server::db_config::{get_db_path, init_db_path, set_db_path, DbConfig, DEFAULT_DB_PATH};
use nexus_server::errors::ServerError;
use nexus_server::migrations::{add_user_column_sql, is_duplicate_column_error, missing_user_columns};
use nexus_server::model::{User, UserColor, UserRole, UserStatus};
use nexus_server::notifications::NotificationService;
use nexus_server::router::{admit_request, limit_avatar_request, Admission, RequestKind};
use nexus_server::text::{format_i64, format_u64, format_usize};
use nexus_server::users::placeholders;

const A: &str = "550e8400-e29b-41d4-a716-446655440000";

#[test]
fn db_path_defaults_then_inits_once() {
    let mut c = DbConfig::new();
    assert_eq!(get_db_path(&c), DEFAULT_DB_PATH);
    assert_eq!(DEFAULT_DB_PATH, "nexus.db");
    init_db_path(&mut c, "first.db".to_string());
    assert_eq!(get_db_path(&c), "first.db");
    init_db_path(&mut c, "second.db".to_string());
    assert_eq!(get_db_path(&c), "first.db");
    set_db_path(&mut c, "third.db".to_string());
    assert_eq!(get_db_path(&c), "third.db");
}

#[test]
fn error_messages_carry_prefix() {
    assert_eq!(ServerError::Database("x".to_string()).message(), "Database error: x");
    assert_eq!(ServerError::Authentication("y".to_string()).message(), "Authentication error: y");
    assert_eq!(ServerError::Authorization("z".to_string()).message(), "Authorization error: z");
    assert_eq!(ServerError::Validation("v".to_string()).message(), "Validation error: v");
    assert_eq!(ServerError::Network("n".to_string()).message(), "Network error: n");
    assert_eq!(ServerError::Internal("i".to_string()).message(), "Internal error: i");
    assert_eq!(ServerError::BadRequest("b".to_string()).message(), "Bad request: b");
    assert_eq!(ServerError::NotFound("f".to_string()).message(), "Not found: f");
    assert_eq!(ServerError::Forbidden("o".to_string()).message(), "Forbidden: o");
    assert!(matches!(ServerError::from("boom".to_string()), ServerError::Internal(ref m) if m == "boom"));
}

#[test]
fn decimal_formatting() {
    assert_eq!(format_u64(0), "0");
    assert_eq!(format_u64(1234567890123), "1234567890123");
    assert_eq!(format_u64(u64::MAX), u64::MAX.to_string());
    assert_eq!(format_usize(42), "42");
    assert_eq!(format_i64(-17), "-17");
    assert_eq!(format_i64(i64::MIN), i64::MIN.to_string());
    assert_eq!(format_i64(i64::MAX), i64::MAX.to_string());
}

#[test]
fn audit_entries_and_lines() {
    let e = AuditService::create_entry(
        AuditAction::UserLogin,
        Some(1),
        None,
        None,
        Some("10.0.0.1".to_string()),
        vec![("k".to_string(), "v".to_string())],
        Some("details".to_string()),
    );
    assert_eq!(e.action, AuditAction::UserLogin);
    assert_eq!(e.user_id, Some(1));
    assert!(e.timestamp > 1_600_000_000);
    let e2 = AuditService::create_entry(AuditAction::UserLogin, None, None, None, None, vec![], None);
    assert_ne!(e.id, e2.id);
    let line = AuditService::log_line(&e);
    assert_eq!(
        line,
        format!("{},UserLogin,00000000-0000-0000-0000-000000000001,None,None,10.0.0.1,details\n", e.timestamp)
    );
    let line2 = AuditService::log_line(&e2);
    assert_eq!(line2, format!("{},UserLogin,None,None,None,None,\n", e2.timestamp));
    assert_eq!(AuditAction::ChannelDeleted.name(), "ChannelDeleted");
    assert_eq!(AuditAction::DMSent.name(), "DMSent");
}

#[test]
fn audit_auth_records() {
    let (meta, details) = AuditService::auth_event_record(AuditAction::UserLogin, "neo", true);
    assert_eq!(meta, vec![("username".to_string(), "neo".to_string()), ("success".to_string(), "true".to_string())]);
    assert_eq!(details, Some("Successful login for user: neo".to_string()));
    let (_, details) = AuditService::auth_event_record(AuditAction::UserRegister, "neo", true);
    assert_eq!(details, Some("Successful registration for user: neo".to_string()));
    let (meta, details) = AuditService::auth_event_record(AuditAction::LoginFailed, "neo", false);
    assert_eq!(meta[1].1, "false");
    assert_eq!(details, Some("Failed login attempt for user: neo".to_string()));
    let (_, details) = AuditService::auth_event_record(AuditAction::UserLogout, "neo", false);
    assert_eq!(details, Some("Failed authentication attempt for user: neo".to_string()));
}

#[test]
fn audit_message_and_moderation_records() {
    let (meta, details) = AuditService::message_action_record(Some(2), Some(1), Some("hello"));
    assert_eq!(meta[0], ("channel_id".to_string(), "00000000-0000-0000-0000-000000000001".to_string()));
    assert_eq!(meta[1], ("message_id".to_string(), "00000000-0000-0000-0000-000000000002".to_string()));
    assert_eq!(details, Some("Message content preview: hello".to_string()));
    let long = "x".repeat(150);
    let (meta, details) = AuditService::message_action_record(None, None, Some(&long));
    assert!(meta.is_empty());
    assert_eq!(details, Some(format!("Message content preview: {}...", "x".repeat(100))));
    let (_, details) = AuditService::message_action_record(None, None, None);
    assert_eq!(details, None);
    let (meta, details) = AuditService::moderation_action_record(AuditAction::UserBanned, Some("spam"), Some("1d"));
    assert_eq!(meta, vec![("reason".to_string(), "spam".to_string()), ("duration".to_string(), "1d".to_string())]);
    assert_eq!(details, Some("User banned by moderator".to_string()));
    let (meta, details) = AuditService::moderation_action_record(AuditAction::UserLogin, None, None);
    assert!(meta.is_empty());
    assert_eq!(details, None);
    assert!(AuditService::get_audit_logs(10, 0, None, None, None, None).unwrap().is_empty());
    assert_eq!(AuditService::get_audit_stats(None, None).unwrap().total_entries, 0);
}

fn peers() -> Vec<PeerEntry> {
    vec![
        PeerEntry { peer_id: 100, user_id: Some(1) },
        PeerEntry { peer_id: 101, user_id: None },
        PeerEntry { peer_id: 102, user_id: Some(2) },
        PeerEntry { peer_id: 103, user_id: Some(1) },
    ]
}

#[test]
fn broadcast_recipients() {
    let p = peers();
    assert_eq!(BroadcastService::broadcast_to_all_recipients(&p), vec![100, 102, 103]);
    assert_eq!(BroadcastService::broadcast_to_users_recipients(&p, &vec![1]), vec![100, 103]);
    assert_eq!(BroadcastService::broadcast_to_users_recipients(&p, &vec![9]), Vec::<u128>::new());
    assert_eq!(BroadcastService::send_to_user_recipient(&p, 2), Some(102));
    assert_eq!(BroadcastService::send_to_user_recipient(&p, 1), Some(100));
    assert_eq!(BroadcastService::send_to_user_recipient(&p, 3), None);
    let mut online = BroadcastService::get_online_users(&p);
    online.sort();
    assert_eq!(online, vec![1, 2]);
    assert!(BroadcastService::is_user_online(&p, 1));
    assert!(!BroadcastService::is_user_online(&p, 3));
    assert!(BroadcastService::get_online_users(&Vec::new()).is_empty());
}

#[test]
fn users_shown_with_online_status() {
    let u = |id: u128| User {
        id,
        username: format!("u{}", id),
        color: UserColor("Green".to_string()),
        role: UserRole::User,
        profile_pic: None,
        cover_banner: None,
        status: UserStatus::Offline,
    };
    let shown = ChatService::with_online_status(vec![u(2), u(3), u(1)], &peers());
    let st: Vec<(u128, UserStatus)> = shown.iter().map(|x| (x.id, x.status)).collect();
    assert_eq!(st, vec![(2, UserStatus::Connected), (3, UserStatus::Offline), (1, UserStatus::Connected)]);
}

#[test]
fn notification_texts() {
    assert_eq!(NotificationService::dm_extra("neo"), "From: neo");
    assert_eq!(NotificationService::mention_extra("hi @neo"), "Message: hi @neo");
    assert_eq!(NotificationService::thread_reply_extra("neo"), "Reply from: neo");
    assert_eq!(NotificationService::thread_reply_message("neo"), "neo replied to your forum post");
}

#[test]
fn migration_helpers() {
    let cols = missing_user_columns();
    assert_eq!(cols.len(), 7);
    assert_eq!(cols[0], ("bio", "TEXT"));
    assert_eq!(cols[6], ("cover_banner", "TEXT"));
    assert_eq!(add_user_column_sql("bio", "TEXT"), "ALTER TABLE users ADD COLUMN bio TEXT");
    assert!(is_duplicate_column_error("duplicate column name: bio"));
    assert!(!is_duplicate_column_error("no such table: users"));
}

#[test]
fn query_placeholders() {
    assert_eq!(placeholders(0), "");
    assert_eq!(placeholders(1), "?");
    assert_eq!(placeholders(3), "?,?,?");
}

#[test]
fn avatar_requests_capped_at_fifty() {
    let ids: Vec<u128> = (0..60).collect();
    let kept = limit_avatar_request(ids);
    assert_eq!(kept.len(), 50);
    assert_eq!(kept[49], 49);
    assert_eq!(limit_avatar_request(vec![5, 6]), vec![5, 6]);
}

#[test]
fn request_admission() {
    assert!(matches!(admit_request(RequestKind::Login, false), Admission::Serve));
    assert!(matches!(admit_request(RequestKind::GetForums, false), Admission::Serve));
    assert!(matches!(admit_request(RequestKind::SendChannelMessage, false), Admission::Ignore));
    assert!(matches!(admit_request(RequestKind::GetNotifications, false), Admission::Ignore));
    assert!(matches!(
        admit_request(RequestKind::GetDMUserList, false),
        Admission::Refuse(ref m) if m == "Must be logged in to get DM user list"
    ));
    assert!(matches!(
        admit_request(RequestKind::CreatePostReply, false),
        Admission::Refuse(ref m) if m == "Must be logged in to create replies"
    ));
    for k in [RequestKind::SendChannelMessage, RequestKind::CreateForum, RequestKind::GetDirectMessagesPaginated] {
        assert!(matches!(admit_request(k, true), Admission::Serve));
    }
}

#[test]
fn uuid_text_is_hyphenated_lower_case() {
    let (meta, _) = AuditService::message_action_record(None, Some(0x550e8400_e29b_41d4_a716_446655440000), None);
    assert_eq!(meta[0].1, A);
}
