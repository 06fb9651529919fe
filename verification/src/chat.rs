use vstd::prelude::*;
use crate::errors::ServerError;
use crate::model::{ChannelMessage, DirectMessage, User, UserStatus};
use crate::broadcast::{user_online, BroadcastService, PeerEntry};
use crate::paging::{beyond_cursor, keep_beyond_cursor, messages_beyond, reverse_vec};

verus! {

/// Configuration for pagination.
#[derive(Debug, Clone)]
pub struct PaginationConfig {
    pub default_page_size: usize,
    pub max_page_size: usize,
    /// How many messages to prefetch.
    pub prefetch_threshold: usize,
}

impl Default for PaginationConfig {
    fn default() -> (c: Self)
        ensures
            c.default_page_size == 50,
            c.max_page_size == 100,
            c.prefetch_threshold == 10,
    {
        PaginationConfig { default_page_size: 50, max_page_size: 100, prefetch_threshold: 10 }
    }
}

/// Where a page of messages starts.
#[derive(Debug, Clone, Copy, PartialEq, Eq, Structural)]
pub enum PaginationCursor {
    /// Messages relative to a timestamp.
    Timestamp(i64),
    /// Offset into the history (served by the legacy fetch).
    Offset(usize),
    /// From the beginning.
    Start,
}

/// Which way a page goes from its cursor.
#[derive(Debug, Clone, Copy, PartialEq, Eq, Structural)]
pub enum PaginationDirection {
    /// Newer messages.
    Forward,
    /// Older messages.
    Backward,
}

/// Pagination request parameters.
#[derive(Debug, Clone, Copy)]
pub struct PaginationRequest {
    pub cursor: PaginationCursor,
    pub limit: usize,
    pub direction: PaginationDirection,
}

/// A page of items with the cursors that lead on from it.
#[derive(Debug, Clone)]
pub struct PaginationResponse<T> {
    pub items: Vec<T>,
    pub has_more: bool,
    pub next_cursor: Option<PaginationCursor>,
    pub prev_cursor: Option<PaginationCursor>,
    pub total_count: Option<usize>,
}

/// Messages that carry a timestamp.
pub trait TimestampedMessage {
    spec fn stamp(&self) -> i64;

    fn timestamp(&self) -> (t: i64)
        ensures
            t == self.stamp(),
    ;
}

impl TimestampedMessage for ChannelMessage {
    open spec fn stamp(&self) -> i64 {
        self.timestamp
    }

    fn timestamp(&self) -> (t: i64) {
        self.timestamp
    }
}

impl TimestampedMessage for DirectMessage {
    open spec fn stamp(&self) -> i64 {
        self.timestamp
    }

    fn timestamp(&self) -> (t: i64) {
        self.timestamp
    }
}

/// Channel messages are paged by the time they were sent: a page's cursors are the
/// send times of its edge messages (the first and last, as the direction picks them),
/// and a channel message lies beyond a cursor exactly when it was sent before it
/// (reading backward) or after it (reading forward).
pub proof fn lemma_channel_pages_by_send_time(msgs: Seq<ChannelMessage>, has_more: bool, m: ChannelMessage, cursor: i64)
    ensures
        m.stamp() == m.timestamp,
        beyond_cursor(m, cursor, PaginationDirection::Backward) <==> m.timestamp < cursor,
        beyond_cursor(m, cursor, PaginationDirection::Forward) <==> m.timestamp > cursor,
        msgs.len() > 0 ==> prev_cursor_of(msgs, PaginationDirection::Backward) == Some(PaginationCursor::Timestamp(msgs.last().timestamp)),
        msgs.len() > 0 ==> prev_cursor_of(msgs, PaginationDirection::Forward) == Some(PaginationCursor::Timestamp(msgs[0].timestamp)),
        (has_more && msgs.len() > 0) ==> next_cursor_of(msgs, has_more, PaginationDirection::Backward)
            == Some(PaginationCursor::Timestamp(msgs[0].timestamp)),
        (has_more && msgs.len() > 0) ==> next_cursor_of(msgs, has_more, PaginationDirection::Forward)
            == Some(PaginationCursor::Timestamp(msgs.last().timestamp)),
{
}

/// Direct messages are paged by the time they were sent, as channel messages are.
pub proof fn lemma_direct_pages_by_send_time(msgs: Seq<DirectMessage>, has_more: bool, m: DirectMessage, cursor: i64)
    ensures
        m.stamp() == m.timestamp,
        beyond_cursor(m, cursor, PaginationDirection::Backward) <==> m.timestamp < cursor,
        beyond_cursor(m, cursor, PaginationDirection::Forward) <==> m.timestamp > cursor,
        msgs.len() > 0 ==> prev_cursor_of(msgs, PaginationDirection::Backward) == Some(PaginationCursor::Timestamp(msgs.last().timestamp)),
        msgs.len() > 0 ==> prev_cursor_of(msgs, PaginationDirection::Forward) == Some(PaginationCursor::Timestamp(msgs[0].timestamp)),
        (has_more && msgs.len() > 0) ==> next_cursor_of(msgs, has_more, PaginationDirection::Backward)
            == Some(PaginationCursor::Timestamp(msgs[0].timestamp)),
        (has_more && msgs.len() > 0) ==> next_cursor_of(msgs, has_more, PaginationDirection::Forward)
            == Some(PaginationCursor::Timestamp(msgs.last().timestamp)),
{
}

/// The cursor that leads to the next page: the edge message of the page in the
/// direction of travel, when there is more to fetch.
pub open spec fn next_cursor_of<T: TimestampedMessage>(
    msgs: Seq<T>,
    has_more: bool,
    direction: PaginationDirection,
) -> Option<PaginationCursor> {
    if has_more && msgs.len() > 0 {
        match direction {
            PaginationDirection::Backward => Some(PaginationCursor::Timestamp(msgs[0].stamp())),
            PaginationDirection::Forward => Some(PaginationCursor::Timestamp(msgs.last().stamp())),
        }
    } else {
        None
    }
}

/// The cursor that leads back to the previous page: the edge message of the page
/// against the direction of travel.
pub open spec fn prev_cursor_of<T: TimestampedMessage>(
    msgs: Seq<T>,
    direction: PaginationDirection,
) -> Option<PaginationCursor> {
    if msgs.len() > 0 {
        match direction {
            PaginationDirection::Backward => Some(PaginationCursor::Timestamp(msgs.last().stamp())),
            PaginationDirection::Forward => Some(PaginationCursor::Timestamp(msgs[0].stamp())),
        }
    } else {
        None
    }
}

/// The messages of a fetched page that a response keeps: for a timestamp cursor those
/// beyond it in the direction of travel, else all of them.
pub open spec fn cursor_page<T: TimestampedMessage>(msgs: Seq<T>, cursor: PaginationCursor, direction: PaginationDirection) -> Seq<T> {
    match cursor {
        PaginationCursor::Timestamp(ts) => messages_beyond(msgs, ts, direction),
        _ => msgs,
    }
}

/// The page size used for a request: the requested limit, at most the
/// configured maximum and at least one.
pub open spec fn effective_page_limit(requested: usize, max_page_size: usize) -> usize {
    let capped = if requested < max_page_size { requested } else { max_page_size };
    if capped < 1 { 1 } else { capped }
}

/// What the store is asked for to serve a pagination request.
#[derive(Debug, Clone, Copy, PartialEq, Eq, Structural)]
pub enum PageFetch {
    /// Messages ordered by timestamp. With `reverse` (reading backward) the newest
    /// first of those strictly older than the cursor `before`; without it the oldest
    /// first of those strictly newer than it; with no cursor, from the newest or the
    /// oldest message on.
    ByTimestamp { before: Option<i64>, limit: usize, reverse: bool },
    /// The legacy newest-fifty fetch.
    Legacy { limit: usize },
}

/// The store query that a request leads to.
pub open spec fn page_fetch_of(request: PaginationRequest, max_page_size: usize) -> PageFetch {
    let limit = effective_page_limit(request.limit, max_page_size);
    let reverse = request.direction == PaginationDirection::Backward;
    match request.cursor {
        PaginationCursor::Timestamp(ts) => PageFetch::ByTimestamp { before: Some(ts), limit, reverse },
        PaginationCursor::Start => PageFetch::ByTimestamp { before: None, limit, reverse },
        PaginationCursor::Offset(_) => PageFetch::Legacy { limit },
    }
}

/// Message pagination.
pub struct ChatService;

impl ChatService {
    /// Calculate pagination cursors based on messages and request direction.
    pub fn calculate_pagination_cursors<T: TimestampedMessage>(
        messages: &[T],
        has_more: bool,
        direction: &PaginationDirection,
    ) -> (r: (Option<PaginationCursor>, Option<PaginationCursor>))
        ensures
            r.0 == next_cursor_of(messages@, has_more, *direction),
            r.1 == prev_cursor_of(messages@, *direction),
    {
        let n = messages.len();
        let next_cursor = if has_more && n > 0 {
            match direction {
                PaginationDirection::Backward => Some(PaginationCursor::Timestamp(messages[0].timestamp())),
                PaginationDirection::Forward => Some(PaginationCursor::Timestamp(messages[n - 1].timestamp())),
            }
        } else {
            None
        };
        let prev_cursor = if n > 0 {
            match direction {
                PaginationDirection::Backward => Some(PaginationCursor::Timestamp(messages[n - 1].timestamp())),
                PaginationDirection::Forward => Some(PaginationCursor::Timestamp(messages[0].timestamp())),
            }
        } else {
            None
        };
        (next_cursor, prev_cursor)
    }

    /// Create the pagination response for a page fetched from the start.
    pub fn create_start_pagination_response<T: TimestampedMessage>(
        messages: Vec<T>,
        has_more: bool,
    ) -> (r: PaginationResponse<T>)
        ensures
            r.items@ == messages@,
            r.has_more == has_more,
            r.next_cursor == (if has_more && messages@.len() > 0 {
                Some(PaginationCursor::Timestamp(messages@[0].stamp()))
            } else {
                None::<PaginationCursor>
            }),
            r.prev_cursor.is_none(),
            r.total_count.is_none(),
    {
        let next_cursor = if has_more && messages.len() > 0 {
            Some(PaginationCursor::Timestamp(messages[0].timestamp()))
        } else {
            None
        };
        PaginationResponse { items: messages, has_more, next_cursor, prev_cursor: None, total_count: None }
    }

    /// Create the pagination response for a page served by the legacy offset fetch.
    pub fn create_fallback_pagination_response<T>(messages: Vec<T>, has_more: bool) -> (r: PaginationResponse<T>)
        ensures
            r.items@ == messages@,
            r.has_more == has_more,
            r.next_cursor.is_none(),
            r.prev_cursor.is_none(),
            r.total_count.is_none(),
    {
        PaginationResponse { items: messages, has_more, next_cursor: None, prev_cursor: None, total_count: None }
    }

    /// Build the response for a timestamp-cursor request from what the store returned
    /// (the page and whether more follow, or the store's error). Of a timestamp cursor's
    /// page only the messages beyond the cursor are kept: older ones when reading
    /// backward, newer ones when reading forward.
    pub fn handle_timestamp_pagination<T: TimestampedMessage>(
        request: &PaginationRequest,
        fetched: Result<(Vec<T>, bool), String>,
    ) -> (r: Result<PaginationResponse<T>, ServerError>)
        ensures
            match fetched {
                Err(e) => r matches Err(ServerError::Database(m)) && m@ == e@,
                Ok((msgs, more)) => r matches Ok(resp) && {
                    &&& resp.items@ == cursor_page(msgs@, request.cursor, request.direction)
                    &&& resp.has_more == more
                    &&& resp.next_cursor == next_cursor_of(resp.items@, more, request.direction)
                    &&& resp.prev_cursor == prev_cursor_of(resp.items@, request.direction)
                    &&& resp.total_count.is_none()
                },
            },
            r matches Ok(resp) ==> (request.cursor matches PaginationCursor::Timestamp(ts) ==> forall|i: int|
                0 <= i < resp.items@.len() ==> beyond_cursor(#[trigger] resp.items@[i], ts, request.direction)),
    {
        match fetched {
            Err(e) => Err(ServerError::Database(e)),
            Ok((fetched_messages, has_more)) => {
                let messages = match request.cursor {
                    PaginationCursor::Timestamp(ts) => keep_beyond_cursor(fetched_messages, ts, request.direction),
                    _ => fetched_messages,
                };
                let (next_cursor, prev_cursor) = Self::calculate_pagination_cursors(
                    messages.as_slice(),
                    has_more,
                    &request.direction,
                );
                Ok(PaginationResponse { items: messages, has_more, next_cursor, prev_cursor, total_count: None })
            },
        }
    }

    /// The page size for a request under a configuration (the default one when none is given).
    pub fn page_limit(request: &PaginationRequest, config: &Option<PaginationConfig>) -> (l: usize)
        ensures
            l == effective_page_limit(
                request.limit,
                match config {
                    Some(c) => c.max_page_size,
                    None => 100,
                },
            ),
            1 <= l,
    {
        let max_page_size = match config {
            Some(c) => c.max_page_size,
            None => PaginationConfig::default().max_page_size,
        };
        let capped = if request.limit < max_page_size { request.limit } else { max_page_size };
        if capped < 1 { 1 } else { capped }
    }

    /// What to ask the store for to serve a paginated request.
    pub fn plan_page_fetch(request: &PaginationRequest, config: &Option<PaginationConfig>) -> (f: PageFetch)
        ensures
            f == page_fetch_of(
                *request,
                match config {
                    Some(c) => c.max_page_size,
                    None => 100,
                },
            ),
    {
        let limit = Self::page_limit(request, config);
        let reverse = request.direction == PaginationDirection::Backward;
        match request.cursor {
            PaginationCursor::Timestamp(ts) => PageFetch::ByTimestamp { before: Some(ts), limit, reverse },
            PaginationCursor::Start => PageFetch::ByTimestamp { before: None, limit, reverse },
            PaginationCursor::Offset(_) => PageFetch::Legacy { limit },
        }
    }

    /// Build the response to a paginated request from what the store returned for
    /// the fetch that `plan_page_fetch` asked for. A timestamp cursor's page holds
    /// only messages beyond the cursor: older ones reading backward, newer ones
    /// reading forward.
    pub fn complete_page<T: TimestampedMessage>(
        request: &PaginationRequest,
        fetched: Result<(Vec<T>, bool), String>,
    ) -> (r: Result<PaginationResponse<T>, ServerError>)
        ensures
            match fetched {
                Err(e) => r matches Err(ServerError::Database(m)) && m@ == e@,
                Ok((msgs, more)) => r matches Ok(resp) && {
                    &&& resp.has_more == more
                    &&& resp.total_count.is_none()
                    &&& match request.cursor {
                        PaginationCursor::Timestamp(ts) => {
                            &&& resp.items@ == messages_beyond(msgs@, ts, request.direction)
                            &&& resp.next_cursor == next_cursor_of(resp.items@, more, request.direction)
                            &&& resp.prev_cursor == prev_cursor_of(resp.items@, request.direction)
                        },
                        PaginationCursor::Start => {
                            &&& resp.items@ == msgs@
                            &&& resp.next_cursor == (if more && msgs@.len() > 0 {
                                Some(PaginationCursor::Timestamp(msgs@[0].stamp()))
                            } else {
                                None::<PaginationCursor>
                            })
                            &&& resp.prev_cursor.is_none()
                        },
                        PaginationCursor::Offset(_) => {
                            &&& resp.items@ == msgs@
                            &&& resp.next_cursor.is_none()
                            &&& resp.prev_cursor.is_none()
                        },
                    }
                },
            },
            r matches Ok(resp) ==> (request.cursor matches PaginationCursor::Timestamp(ts) ==> forall|i: int|
                0 <= i < resp.items@.len() ==> beyond_cursor(#[trigger] resp.items@[i], ts, request.direction)),
    {
        match request.cursor {
            PaginationCursor::Timestamp(_) => Self::handle_timestamp_pagination(request, fetched),
            PaginationCursor::Start => match fetched {
                Err(e) => Err(ServerError::Database(e)),
                Ok((messages, has_more)) => Ok(Self::create_start_pagination_response(messages, has_more)),
            },
            PaginationCursor::Offset(_) => match fetched {
                Err(e) => Err(ServerError::Database(e)),
                Ok((messages, has_more)) => Ok(Self::create_fallback_pagination_response(messages, has_more)),
            },
        }
    }
}

impl ChatService {
    /// The page that the legacy history fetch (oldest first) serves for a paginated
    /// request: its newest `limit` messages, oldest first; more can be read when the
    /// fetch did not reach the start of the history or when messages were left out.
    pub fn legacy_page<T>(messages: Vec<T>, history_complete: bool, limit: usize) -> (r: (Vec<T>, bool))
        ensures
            r.0@ == (if messages@.len() > limit { messages@.skip(messages@.len() - limit) } else { messages@ }),
            r.1 == (!history_complete || messages@.len() > limit),
    {
        let n = messages.len();
        if n > limit {
            let ghost orig = messages@;
            let mut newest_first = reverse_vec(messages);
            newest_first.truncate(limit);
            let page = reverse_vec(newest_first);
            proof {
                assert forall|i: int| 0 <= i < limit implies #[trigger] page@[i] == orig.skip(n - limit)[i] by {
                    assert(page@[i] == orig[n - 1 - (limit - 1 - i)]);
                }
                assert(page@ =~= orig.skip(n - limit));
            }
            (page, true)
        } else {
            (messages, !history_complete)
        }
    }
}

impl ChatService {
    /// The users, each shown connected when they have a connection and offline otherwise.
    pub fn with_online_status(users: Vec<User>, peers: &Vec<PeerEntry>) -> (r: Vec<User>)
        ensures
            r@.len() == users@.len(),
            forall|i: int| 0 <= i < r@.len() ==> {
                &&& (#[trigger] r@[i]).id == users@[i].id
                &&& r@[i].username == users@[i].username
                &&& r@[i].color == users@[i].color
                &&& r@[i].role == users@[i].role
                &&& r@[i].profile_pic == users@[i].profile_pic
                &&& r@[i].cover_banner == users@[i].cover_banner
                &&& r@[i].status == (if user_online(peers@, users@[i].id) {
                    UserStatus::Connected
                } else {
                    UserStatus::Offline
                })
            },
    {
        let mut src = users;
        let ghost orig = src@;
        let mut rev: Vec<User> = Vec::new();
        while src.len() > 0
            invariant
                src@ == orig.take(src@.len() as int),
                rev@.len() + src@.len() == orig.len(),
                forall|k: int| 0 <= k < rev@.len() ==> {
                    let o = orig[orig.len() - 1 - k];
                    &&& (#[trigger] rev@[k]).id == o.id
                    &&& rev@[k].username == o.username
                    &&& rev@[k].color == o.color
                    &&& rev@[k].role == o.role
                    &&& rev@[k].profile_pic == o.profile_pic
                    &&& rev@[k].cover_banner == o.cover_banner
                    &&& rev@[k].status == (if user_online(peers@, o.id) { UserStatus::Connected } else { UserStatus::Offline })
                },
            decreases src.len(),
        {
            let ghost n = src@.len();
            let mut u = src.pop().unwrap();
            assert(src@ =~= orig.take(n - 1));
            let online = BroadcastService::is_user_online(peers, u.id);
            u.status = if online { UserStatus::Connected } else { UserStatus::Offline };
            rev.push(u);
        }
        let mut out: Vec<User> = Vec::new();
        while rev.len() > 0
            invariant
                rev@.len() + out@.len() == orig.len(),
                forall|k: int| 0 <= k < rev@.len() ==> {
                    let o = orig[orig.len() - 1 - k];
                    &&& (#[trigger] rev@[k]).id == o.id
                    &&& rev@[k].username == o.username
                    &&& rev@[k].color == o.color
                    &&& rev@[k].role == o.role
                    &&& rev@[k].profile_pic == o.profile_pic
                    &&& rev@[k].cover_banner == o.cover_banner
                    &&& rev@[k].status == (if user_online(peers@, o.id) { UserStatus::Connected } else { UserStatus::Offline })
                },
                forall|i: int| 0 <= i < out@.len() ==> {
                    let o = orig[i];
                    &&& (#[trigger] out@[i]).id == o.id
                    &&& out@[i].username == o.username
                    &&& out@[i].color == o.color
                    &&& out@[i].role == o.role
                    &&& out@[i].profile_pic == o.profile_pic
                    &&& out@[i].cover_banner == o.cover_banner
                    &&& out@[i].status == (if user_online(peers@, o.id) { UserStatus::Connected } else { UserStatus::Offline })
                },
            decreases rev.len(),
        {
            let u = rev.pop().unwrap();
            out.push(u);
        }
        out
    }
}

} // verus!
