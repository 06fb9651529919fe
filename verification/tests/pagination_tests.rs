use nexus_server::chat::{
    ChatService, PageFetch, PaginationConfig, PaginationCursor, PaginationDirection, PaginationRequest,
};
use nexus_server::errors::ServerError;
use nexus_server::model::{ChannelMessage, DirectMessage};
use nexus_server::paging::{
    clamp_store_limit, complete_history, finish_notification_page, finish_timestamp_page, is_reverse_order,
    plan_client_page, reverse_vec, timestamp_query_order, wants_total_count,
};

fn msg(ts: i64) -> ChannelMessage {
    ChannelMessage { id: ts as u128, channel_id: 1, sent_by: 2, timestamp: ts, content: format!("m{}", ts) }
}

fn stamps(v: &[ChannelMessage]) -> Vec<i64> {
    v.iter().map(|m| m.timestamp).collect()
}

#[test]
fn cursors_backward_with_more() {
    let msgs = vec![msg(10), msg(20), msg(30)];
    let (next, prev) = ChatService::calculate_pagination_cursors(&msgs, true, &PaginationDirection::Backward);
    assert_eq!(next, Some(PaginationCursor::Timestamp(10)));
    assert_eq!(prev, Some(PaginationCursor::Timestamp(30)));
}

#[test]
fn cursors_forward_with_more() {
    let msgs = vec![msg(10), msg(20), msg(30)];
    let (next, prev) = ChatService::calculate_pagination_cursors(&msgs, true, &PaginationDirection::Forward);
    assert_eq!(next, Some(PaginationCursor::Timestamp(30)));
    assert_eq!(prev, Some(PaginationCursor::Timestamp(10)));
}

#[test]
fn cursors_without_more_or_messages() {
    let msgs = vec![msg(10)];
    let (next, prev) = ChatService::calculate_pagination_cursors(&msgs, false, &PaginationDirection::Backward);
    assert_eq!(next, None);
    assert_eq!(prev, Some(PaginationCursor::Timestamp(10)));
    let empty: Vec<ChannelMessage> = Vec::new();
    let (next, prev) = ChatService::calculate_pagination_cursors(&empty, true, &PaginationDirection::Forward);
    assert_eq!(next, None);
    assert_eq!(prev, None);
}

#[test]
fn start_response_points_at_first_message() {
    let r = ChatService::create_start_pagination_response(vec![msg(5), msg(6)], true);
    assert_eq!(stamps(&r.items), vec![5, 6]);
    assert!(r.has_more);
    assert_eq!(r.next_cursor, Some(PaginationCursor::Timestamp(5)));
    assert_eq!(r.prev_cursor, None);
    assert_eq!(r.total_count, None);
    let r = ChatService::create_start_pagination_response(vec![msg(5)], false);
    assert_eq!(r.next_cursor, None);
}

#[test]
fn fallback_response_has_no_cursors() {
    let r = ChatService::create_fallback_pagination_response(vec![msg(1), msg(2)], true);
    assert_eq!(stamps(&r.items), vec![1, 2]);
    assert!(r.has_more);
    assert_eq!(r.next_cursor, None);
    assert_eq!(r.prev_cursor, None);
    assert_eq!(r.total_count, None);
}

#[test]
fn timestamp_pagination_builds_response_or_passes_error() {
    let req = PaginationRequest { cursor: PaginationCursor::Timestamp(100), limit: 2, direction: PaginationDirection::Backward };
    let r = ChatService::handle_timestamp_pagination(&req, Ok((vec![msg(50), msg(60)], true))).unwrap();
    assert_eq!(r.next_cursor, Some(PaginationCursor::Timestamp(50)));
    assert_eq!(r.prev_cursor, Some(PaginationCursor::Timestamp(60)));
    let e = ChatService::handle_timestamp_pagination::<ChannelMessage>(&req, Err("disk full".to_string()));
    match e {
        Err(ServerError::Database(m)) => assert_eq!(m, "disk full"),
        _ => panic!("expected a database error"),
    }
}

#[test]
fn page_limit_is_capped_and_at_least_one() {
    let cfg = Some(PaginationConfig { default_page_size: 50, max_page_size: 30, prefetch_threshold: 10 });
    let mk = |limit: usize| PaginationRequest { cursor: PaginationCursor::Start, limit, direction: PaginationDirection::Forward };
    assert_eq!(ChatService::page_limit(&mk(10), &cfg), 10);
    assert_eq!(ChatService::page_limit(&mk(500), &cfg), 30);
    assert_eq!(ChatService::page_limit(&mk(0), &cfg), 1);
    assert_eq!(ChatService::page_limit(&mk(500), &None), 100);
}

#[test]
fn default_pagination_config() {
    let c = PaginationConfig::default();
    assert_eq!(c.default_page_size, 50);
    assert_eq!(c.max_page_size, 100);
    assert_eq!(c.prefetch_threshold, 10);
}

#[test]
fn plan_page_fetch_by_cursor() {
    let req = PaginationRequest { cursor: PaginationCursor::Timestamp(77), limit: 20, direction: PaginationDirection::Backward };
    assert_eq!(
        ChatService::plan_page_fetch(&req, &None),
        PageFetch::ByTimestamp { before: Some(77), limit: 20, reverse: true }
    );
    let req = PaginationRequest { cursor: PaginationCursor::Start, limit: 1000, direction: PaginationDirection::Forward };
    assert_eq!(
        ChatService::plan_page_fetch(&req, &None),
        PageFetch::ByTimestamp { before: None, limit: 100, reverse: false }
    );
    let req = PaginationRequest { cursor: PaginationCursor::Offset(3), limit: 20, direction: PaginationDirection::Forward };
    assert_eq!(ChatService::plan_page_fetch(&req, &None), PageFetch::Legacy { limit: 20 });
}

#[test]
fn complete_page_by_cursor_kind() {
    let start = PaginationRequest { cursor: PaginationCursor::Start, limit: 2, direction: PaginationDirection::Forward };
    let r = ChatService::complete_page(&start, Ok((vec![msg(1), msg(2)], true))).unwrap();
    assert_eq!(r.next_cursor, Some(PaginationCursor::Timestamp(1)));
    assert_eq!(r.prev_cursor, None);
    let off = PaginationRequest { cursor: PaginationCursor::Offset(0), limit: 2, direction: PaginationDirection::Forward };
    let r = ChatService::complete_page(&off, Ok((vec![msg(1)], false))).unwrap();
    assert_eq!(r.next_cursor, None);
    assert!(!r.has_more);
    let ts = PaginationRequest { cursor: PaginationCursor::Timestamp(2), limit: 2, direction: PaginationDirection::Forward };
    let r = ChatService::complete_page(&ts, Ok((vec![msg(3), msg(4)], true))).unwrap();
    assert_eq!(r.next_cursor, Some(PaginationCursor::Timestamp(4)));
    assert_eq!(r.prev_cursor, Some(PaginationCursor::Timestamp(3)));
    assert!(matches!(ChatService::complete_page::<ChannelMessage>(&ts, Err("x".to_string())), Err(ServerError::Database(_))));
}

#[test]
fn direct_messages_paginate_too() {
    let dm = |ts: i64| DirectMessage { id: 1, from: 2, to: 3, timestamp: ts, content: String::new() };
    let (next, prev) = ChatService::calculate_pagination_cursors(&[dm(1), dm(2)], true, &PaginationDirection::Forward);
    assert_eq!(next, Some(PaginationCursor::Timestamp(2)));
    assert_eq!(prev, Some(PaginationCursor::Timestamp(1)));
}

#[test]
fn timestamp_page_drops_extra_row_and_reorders() {
    // Asked for limit + 1 rows, newest first.
    let (page, more) = finish_timestamp_page(vec![msg(30), msg(20), msg(10)], 2, true, None);
    assert!(more);
    assert_eq!(stamps(&page), vec![20, 30]);
    let (page, more) = finish_timestamp_page(vec![msg(10), msg(20)], 2, false, None);
    assert!(!more);
    assert_eq!(stamps(&page), vec![10, 20]);
}

#[test]
fn legacy_history_complete_when_oldest_reached() {
    let (page, complete) = complete_history(vec![msg(30), msg(20)], Some(20));
    assert_eq!(stamps(&page), vec![20, 30]);
    assert!(complete);
    let (_, complete) = complete_history(vec![msg(30), msg(20)], Some(5));
    assert!(!complete);
    let (page, complete) = complete_history(Vec::<ChannelMessage>::new(), Some(5));
    assert!(page.is_empty());
    assert!(complete);
    let (_, complete) = complete_history(vec![msg(3)], None);
    assert!(complete);
}

#[test]
fn notification_page_complete_below_fifty() {
    let rows: Vec<i64> = (0..50).rev().collect();
    let (page, complete) = finish_notification_page(rows);
    assert_eq!(page[0], 0);
    assert_eq!(page[49], 49);
    assert!(!complete);
    let (page, complete) = finish_notification_page(vec![3, 2, 1]);
    assert_eq!(page, vec![1, 2, 3]);
    assert!(complete);
}

#[test]
fn client_page_plans() {
    assert_eq!(plan_client_page(PaginationCursor::Timestamp(8), Some(10)), Ok((Some(8), 10)));
    assert_eq!(plan_client_page(PaginationCursor::Start, None), Ok((None, 50)));
    assert_eq!(plan_client_page(PaginationCursor::Start, Some(1000)), Ok((None, 200)));
    assert_eq!(
        plan_client_page(PaginationCursor::Offset(4), Some(10)),
        Err("Offset pagination not supported for messages")
    );
}

#[test]
fn small_paging_helpers() {
    assert_eq!(clamp_store_limit(10), 10);
    assert_eq!(clamp_store_limit(1000), 200);
    assert_eq!(timestamp_query_order(true), ("<", "DESC"));
    assert_eq!(timestamp_query_order(false), (">", "ASC"));
    assert!(wants_total_count(50));
    assert!(!wants_total_count(51));
    assert!(is_reverse_order(PaginationDirection::Backward));
    assert!(!is_reverse_order(PaginationDirection::Forward));
    assert_eq!(reverse_vec(vec![1, 2, 3]), vec![3, 2, 1]);
    assert_eq!(reverse_vec(Vec::<u8>::new()), Vec::<u8>::new());
}

#[test]
fn backward_pages_hold_older_and_forward_pages_newer_messages() {
    // Reading backward from 25: only messages strictly older than the cursor.
    let (page, more) = finish_timestamp_page(vec![msg(30), msg(25), msg(20), msg(10)], 2, true, Some(25));
    assert_eq!(stamps(&page), vec![10, 20]);
    assert!(!more);
    // Reading forward from 25: only messages strictly newer.
    let (page, more) = finish_timestamp_page(vec![msg(25), msg(26), msg(27), msg(28)], 2, false, Some(25));
    assert_eq!(stamps(&page), vec![26, 27]);
    assert!(more);
    let back = PaginationRequest { cursor: PaginationCursor::Timestamp(55), limit: 5, direction: PaginationDirection::Backward };
    let r = ChatService::handle_timestamp_pagination(&back, Ok((vec![msg(50), msg(55), msg(60)], false))).unwrap();
    assert_eq!(stamps(&r.items), vec![50]);
    let fwd = PaginationRequest { cursor: PaginationCursor::Timestamp(55), limit: 5, direction: PaginationDirection::Forward };
    let r = ChatService::complete_page(&fwd, Ok((vec![msg(50), msg(55), msg(60)], true))).unwrap();
    assert_eq!(stamps(&r.items), vec![60]);
    assert_eq!(r.next_cursor, Some(PaginationCursor::Timestamp(60)));
}

#[test]
fn legacy_pages_keep_the_newest_and_report_more() {
    let (page, more) = ChatService::legacy_page(vec![msg(1), msg(2), msg(3)], true, 2);
    assert_eq!(stamps(&page), vec![2, 3]);
    assert!(more);
    let (page, more) = ChatService::legacy_page(vec![msg(1), msg(2)], true, 5);
    assert_eq!(stamps(&page), vec![1, 2]);
    assert!(!more);
    let (_, more) = ChatService::legacy_page(vec![msg(1)], false, 5);
    assert!(more);
}
