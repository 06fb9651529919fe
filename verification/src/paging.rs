use vstd::prelude::*;
use crate::chat::{PaginationCursor, PaginationDirection, TimestampedMessage};

verus! {

/// The most messages that one store query returns.
pub const STORE_PAGE_CAP: usize = 200;

/// How many rows the legacy message and notification fetches return at most.
pub const LEGACY_PAGE_SIZE: usize = 50;

/// The items in the opposite order.
pub fn reverse_vec<T>(v: Vec<T>) -> (r: Vec<T>)
    ensures
        r@ == v@.reverse(),
{
    let mut src = v;
    let ghost orig = src@;
    let mut out: Vec<T> = Vec::new();
    while src.len() > 0
        invariant
            src@ == orig.take(src@.len() as int),
            out@ == orig.skip(src@.len() as int).reverse(),
            src@.len() <= orig.len(),
        decreases src.len(),
    {
        let ghost k = src@.len();
        let x = src.pop().unwrap();
        proof {
            assert(x == orig[k - 1]);
            assert(orig.skip(k - 1) =~= seq![orig[k - 1]] + orig.skip(k as int));
        }
        out.push(x);
        proof {
            assert(src@ =~= orig.take(k - 1));
            assert forall|i: int| 0 <= i < out@.len() implies out@[i] == orig.skip(k - 1).reverse()[i] by {
                if i < out@.len() - 1 {
                    assert(out@[i] == orig.skip(k as int).reverse()[i]);
                }
            }
            assert(out@ =~= orig.skip(k - 1).reverse());
        }
    }
    assert(orig.skip(0) =~= orig);
    out
}

/// The store's row limit for a requested page size.
pub open spec fn store_limit(limit: usize) -> usize {
    if limit < STORE_PAGE_CAP { limit } else { STORE_PAGE_CAP }
}

/// The page size that a timestamp-ordered store query serves: the requested one,
/// at most two hundred.
pub fn clamp_store_limit(limit: usize) -> (l: usize)
    ensures
        l == store_limit(limit),
        l <= STORE_PAGE_CAP,
{
    if limit < STORE_PAGE_CAP { limit } else { STORE_PAGE_CAP }
}

/// The direction a store query reads in: newest first (backward, toward older
/// messages) when `reverse`, else oldest first (forward, toward newer ones).
pub open spec fn direction_of(reverse: bool) -> PaginationDirection {
    if reverse { PaginationDirection::Backward } else { PaginationDirection::Forward }
}

/// Whether a message lies beyond a cursor in the direction of travel: older than the
/// cursor when reading backward, newer when reading forward.
pub open spec fn beyond_cursor<T: TimestampedMessage>(m: T, cursor: i64, direction: PaginationDirection) -> bool {
    match direction {
        PaginationDirection::Backward => m.stamp() < cursor,
        PaginationDirection::Forward => m.stamp() > cursor,
    }
}

/// The test `beyond_cursor` as a predicate on messages.
pub open spec fn beyond_pred<T: TimestampedMessage>(cursor: i64, direction: PaginationDirection) -> spec_fn(T) -> bool {
    |m: T| beyond_cursor(m, cursor, direction)
}

/// The messages, in order, that lie beyond a cursor in the direction of travel.
pub open spec fn messages_beyond<T: TimestampedMessage>(msgs: Seq<T>, cursor: i64, direction: PaginationDirection) -> Seq<T> {
    msgs.filter(beyond_pred(cursor, direction))
}

/// Keep, in order, the messages that lie beyond a cursor in the direction of travel.
pub fn keep_beyond_cursor<T: TimestampedMessage>(msgs: Vec<T>, cursor: i64, direction: PaginationDirection) -> (r: Vec<T>)
    ensures
        r@ == messages_beyond(msgs@, cursor, direction),
        forall|i: int| 0 <= i < r@.len() ==> beyond_cursor(#[trigger] r@[i], cursor, direction),
{
    let ghost orig = msgs@;
    let ghost pred = beyond_pred::<T>(cursor, direction);
    let mut src = reverse_vec(msgs);
    let mut out: Vec<T> = Vec::new();
    let ghost mut k: int = 0;
    while src.len() > 0
        invariant
            0 <= k <= orig.len(),
            src@.len() + k == orig.len(),
            forall|j: int| 0 <= j < src@.len() ==> #[trigger] src@[j] == orig[orig.len() - 1 - j],
            out@ == orig.take(k).filter(pred),
            pred == beyond_pred::<T>(cursor, direction),
        decreases src.len(),
    {
        let ghost n = src@.len();
        let m = src.pop().unwrap();
        proof {
            assert(m == orig[k]);
            assert(orig.take(k + 1).drop_last() =~= orig.take(k));
            assert(orig.take(k + 1).last() == orig[k]);
            reveal_with_fuel(Seq::filter, 1);
        }
        let t = m.timestamp();
        let keep = match direction {
            PaginationDirection::Backward => t < cursor,
            PaginationDirection::Forward => t > cursor,
        };
        if keep {
            out.push(m);
        }
        proof {
            assert(keep == pred(orig[k]));
            k = k + 1;
        }
    }
    proof {
        assert(orig.take(orig.len() as int) =~= orig);
        assert forall|i: int| 0 <= i < out@.len() implies beyond_cursor(#[trigger] out@[i], cursor, direction) by {
            orig.lemma_filter_pred(pred, i);
        }
    }
    out
}

/// The comparison and ordering of a timestamp-ordered store query: newest first and
/// strictly before the cursor (`<`, `DESC`) when `reverse`, that is reading backward
/// toward older messages; else oldest first and strictly after it (`>`, `ASC`).
pub fn timestamp_query_order(reverse: bool) -> (r: (&'static str, &'static str))
    ensures
        reverse ==> r.0@ == "<"@ && r.1@ == "DESC"@,
        !reverse ==> r.0@ == ">"@ && r.1@ == "ASC"@,
{
    if reverse { ("<", "DESC") } else { (">", "ASC") }
}

/// The rows of a timestamp-ordered query that lie on the cursor's side (all of them
/// when there is no cursor).
pub open spec fn rows_on_side<T: TimestampedMessage>(rows: Seq<T>, before: Option<i64>, reverse: bool) -> Seq<T> {
    match before {
        Some(c) => messages_beyond(rows, c, direction_of(reverse)),
        None => rows,
    }
}

/// The page that a timestamp-ordered query yields: of the rows beyond the cursor
/// (older when reading backward, newer when reading forward), the store was asked
/// for one more than the page holds; when there are more than `limit` of them there
/// are more and the last is dropped; a reversed (newest-first) query is turned back
/// into oldest-first order.
pub open spec fn finished_page<T: TimestampedMessage>(rows: Seq<T>, limit: usize, reverse: bool, before: Option<i64>) -> (Seq<T>, bool) {
    let side = rows_on_side(rows, before, reverse);
    let has_more = side.len() > limit;
    let kept = if has_more { side.drop_last() } else { side };
    (if reverse { kept.reverse() } else { kept }, has_more)
}

/// A store that returns at most one row more than the page size yields a page of at
/// most the page size; it reports more only when it returned that extra row, and
/// exactly then when there is no cursor to hold the rows against.
pub proof fn lemma_page_within_limit<T: TimestampedMessage>(rows: Seq<T>, limit: usize, reverse: bool, before: Option<i64>)
    requires
        rows.len() <= limit + 1,
    ensures
        finished_page(rows, limit, reverse, before).0.len() <= limit,
        finished_page(rows, limit, reverse, before).1 ==> rows.len() == limit + 1,
        before is None ==> (finished_page(rows, limit, reverse, before).1 <==> rows.len() == limit + 1),
{
    broadcast use Seq::lemma_filter_len;
}

/// Turn the rows of a timestamp-ordered query into a page and whether more follow;
/// every message of the page lies beyond the cursor in the direction of travel.
pub fn finish_timestamp_page<T: TimestampedMessage>(rows: Vec<T>, limit: usize, reverse: bool, before: Option<i64>) -> (r: (Vec<T>, bool))
    ensures
        (r.0@, r.1) == finished_page(rows@, limit, reverse, before),
        before matches Some(c) ==> forall|i: int| 0 <= i < r.0@.len() ==> beyond_cursor(#[trigger] r.0@[i], c, direction_of(reverse)),
{
    let mut messages = match before {
        Some(c) => keep_beyond_cursor(rows, c, if reverse { PaginationDirection::Backward } else { PaginationDirection::Forward }),
        None => rows,
    };
    let ghost side = messages@;
    let has_more = messages.len() > limit;
    if has_more {
        messages.pop();
    }
    let ghost kept = messages@;
    proof {
        assert(forall|i: int| 0 <= i < kept.len() ==> kept[i] == side[i]);
    }
    if reverse {
        messages = reverse_vec(messages);
    }
    proof {
        if before is Some {
            assert forall|i: int| 0 <= i < messages@.len() implies beyond_cursor(#[trigger] messages@[i], before->0, direction_of(reverse)) by {
                if reverse {
                    assert(messages@[i] == kept[kept.len() - 1 - i]);
                } else {
                    assert(messages@[i] == kept[i]);
                }
            }
        }
    }
    (messages, has_more)
}

/// Whether the legacy history fetch reached the oldest message: the page is empty,
/// or its oldest message is no newer than the oldest one stored (`oldest_stored`,
/// absent when the store could not tell).
pub open spec fn history_complete<T: TimestampedMessage>(page: Seq<T>, oldest_stored: Option<i64>) -> bool {
    page.len() == 0 || page[0].stamp() <= (match oldest_stored {
        Some(m) => m,
        None => page[0].stamp(),
    })
}

/// Turn the rows of the legacy history fetch (newest first) into a page (oldest
/// first) and whether the history is complete.
pub fn complete_history<T: TimestampedMessage>(rows_newest_first: Vec<T>, oldest_stored: Option<i64>) -> (r: (
    Vec<T>,
    bool,
))
    ensures
        r.0@ == rows_newest_first@.reverse(),
        r.1 == history_complete(r.0@, oldest_stored),
{
    let messages = reverse_vec(rows_newest_first);
    let complete = if messages.len() == 0 {
        true
    } else {
        let oldest = messages[0].timestamp();
        let min_ts = match oldest_stored {
            Some(m) => m,
            None => oldest,
        };
        oldest <= min_ts
    };
    (messages, complete)
}

/// Turn the rows of a notification fetch (newest first) into a page (oldest first)
/// and whether the history is complete (fewer rows than the fetch could return).
pub fn finish_notification_page<T>(rows_newest_first: Vec<T>) -> (r: (Vec<T>, bool))
    ensures
        r.0@ == rows_newest_first@.reverse(),
        r.1 == (rows_newest_first@.len() < LEGACY_PAGE_SIZE),
{
    let n = rows_newest_first.len();
    let page = reverse_vec(rows_newest_first);
    (page, n < LEGACY_PAGE_SIZE)
}

/// The default page size of a paginated message request.
pub const DEFAULT_REQUEST_LIMIT: usize = 50;

/// The largest page size that a client may request.
pub const MAX_REQUEST_LIMIT: usize = 200;

/// Requests of at most this many messages also report the total count.
pub const TOTAL_COUNT_THRESHOLD: usize = 50;

/// A client's page size, defaulted and capped.
pub open spec fn request_limit(limit: Option<usize>) -> usize {
    let l = match limit {
        Some(l) => l,
        None => DEFAULT_REQUEST_LIMIT,
    };
    if l < MAX_REQUEST_LIMIT { l } else { MAX_REQUEST_LIMIT }
}

/// What a client's paginated message request asks the store for: the timestamp
/// bound and page size, or the notice that offset cursors are not served.
pub fn plan_client_page(cursor: PaginationCursor, limit: Option<usize>) -> (r: Result<(Option<i64>, usize), &'static str>)
    ensures
        match cursor {
            PaginationCursor::Timestamp(ts) => r == Ok::<(Option<i64>, usize), &'static str>((Some(ts), request_limit(limit))),
            PaginationCursor::Start => r == Ok::<(Option<i64>, usize), &'static str>((None, request_limit(limit))),
            PaginationCursor::Offset(_) => r matches Err(m) && m@ == "Offset pagination not supported for messages"@,
        },
{
    let l = match limit {
        Some(l) => l,
        None => DEFAULT_REQUEST_LIMIT,
    };
    let l = if l < MAX_REQUEST_LIMIT { l } else { MAX_REQUEST_LIMIT };
    match cursor {
        PaginationCursor::Timestamp(ts) => Ok((Some(ts), l)),
        PaginationCursor::Start => Ok((None, l)),
        PaginationCursor::Offset(_) => Err("Offset pagination not supported for messages"),
    }
}

/// Whether a client's page of `limit` messages also reports the total count.
pub fn wants_total_count(limit: usize) -> (r: bool)
    ensures
        r == (limit <= TOTAL_COUNT_THRESHOLD),
{
    limit <= TOTAL_COUNT_THRESHOLD
}

/// Whether a paginated request reads newest first.
pub fn is_reverse_order(direction: PaginationDirection) -> (r: bool)
    ensures
        r == (direction == PaginationDirection::Backward),
{
    direction == PaginationDirection::Backward
}

} // verus!
