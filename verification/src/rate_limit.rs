use vstd::prelude::*;
use std::collections::HashMap;
use std::hash::Hash;
use std::time::Instant;
use crate::text::{decimal_text, format_usize};

verus! {

/// `std::time::Instant`, carried through opaquely.
#[verifier::external_type_specification]
#[verifier::external_body]
pub struct ExInstant(Instant);

/// The current instant of the monotonic clock (`std::time::Instant::now`).
/// Nothing is claimed of it.
#[verifier::external_body]
fn clock_now() -> (t: Instant) {
    Instant::now()
}

/// Whole nanoseconds from `origin` until now on the monotonic clock
/// (`Instant::elapsed`, then `Duration::as_nanos`). Nothing is claimed of its value.
#[verifier::external_body]
fn nanos_since(origin: &Instant) -> (n: u128) {
    origin.elapsed().as_nanos()
}

broadcast use vstd::std_specs::hash::group_hash_axioms;

/// Nanoseconds in a second.
pub const NANOS_PER_SECOND: u64 = 1_000_000_000;

/// Length of the message window (one minute), in nanoseconds.
pub const MESSAGE_WINDOW: u64 = 60_000_000_000;

/// Length of the request window (one second), in nanoseconds.
pub const REQUEST_WINDOW: u64 = 1_000_000_000;

/// Windows older than this (two hours, in nanoseconds) are dropped by a cleanup.
pub const CLEANUP_THRESHOLD: u64 = 7_200_000_000_000;

/// The limits that the rate limiter enforces.
#[derive(Debug, Clone, Copy)]
pub struct RateLimitConfig {
    pub messages_per_minute: usize,
    pub requests_per_second: usize,
}

/// How many actions a key took in its current window, and when the window began
/// (nanoseconds on the service's clock).
#[derive(Debug, Clone, Copy, PartialEq, Eq, Structural)]
pub struct RateWindow {
    pub count: usize,
    pub window_start: u64,
}

/// Time from `start` to `now`, zero when `now` is earlier.
pub open spec fn elapsed(now: u64, start: u64) -> u64 {
    if now >= start { (now - start) as u64 } else { 0 }
}

/// One check against a window: a missing window opens at `now`; a window that has
/// lasted `window` or longer starts over at `now`; the action is admitted when the
/// window has counted fewer than `max` actions, and is then counted.
pub open spec fn window_step(prev: Option<RateWindow>, now: u64, window: u64, max: usize) -> (RateWindow, bool) {
    let w0 = match prev {
        Some(w) => w,
        None => RateWindow { count: 0, window_start: now },
    };
    let w1 = if elapsed(now, w0.window_start) >= window { RateWindow { count: 0, window_start: now } } else { w0 };
    if w1.count >= max {
        (w1, false)
    } else {
        (RateWindow { count: (w1.count + 1) as usize, window_start: w1.window_start }, true)
    }
}

/// The windows that a cleanup at `now` keeps: those younger than `threshold`.
pub open spec fn kept_after_cleanup<K>(m: Map<K, RateWindow>, now: u64, threshold: u64) -> Map<K, RateWindow> {
    m.restrict(Set::new(|k: K| m.contains_key(k) && elapsed(now, m[k].window_start) < threshold))
}

/// The windows of one kind of action, by key.
pub struct RateTable<K> {
    windows: HashMap<K, RateWindow>,
}

impl<K: Hash + Eq + Copy> RateTable<K> {
    /// The window of each key that has one.
    pub closed spec fn windows(&self) -> Map<K, RateWindow> {
        self.windows@
    }

    /// An empty table.
    pub fn new() -> (t: Self)
        ensures
            t.windows() == Map::<K, RateWindow>::empty(),
    {
        RateTable { windows: HashMap::new() }
    }

    /// The window of a key, if it has one.
    pub fn get(&self, key: K) -> (w: Option<RateWindow>)
        requires
            vstd::std_specs::hash::obeys_key_model::<K>(),
        ensures
            w == (if self.windows().contains_key(key) { Some(self.windows()[key]) } else { None::<RateWindow> }),
    {
        match self.windows.get(&key) {
            Some(w) => Some(*w),
            None => None,
        }
    }

    /// Count one action of `key` at `now` in windows of length `window`, admitting at
    /// most `max` per window. Returns whether the action is admitted.
    pub fn check(&mut self, key: K, now: u64, window: u64, max: usize) -> (admitted: bool)
        requires
            vstd::std_specs::hash::obeys_key_model::<K>(),
        ensures
            ({
                let prev = if old(self).windows().contains_key(key) {
                    Some(old(self).windows()[key])
                } else {
                    None::<RateWindow>
                };
                let (w, ok) = window_step(prev, now, window, max);
                &&& admitted == ok
                &&& final(self).windows() == old(self).windows().insert(key, w)
            }),
    {
        let prev = self.get(key);
        let w0 = match prev {
            Some(w) => w,
            None => RateWindow { count: 0, window_start: now },
        };
        let since = if now >= w0.window_start { now - w0.window_start } else { 0 };
        let w1 = if since >= window { RateWindow { count: 0, window_start: now } } else { w0 };
        if w1.count >= max {
            self.windows.insert(key, w1);
            false
        } else {
            let w2 = RateWindow { count: w1.count + 1, window_start: w1.window_start };
            self.windows.insert(key, w2);
            true
        }
    }

    /// Drop the windows that began `threshold` or longer before `now`.
    pub fn cleanup(&mut self, now: u64, threshold: u64)
        requires
            vstd::std_specs::hash::obeys_key_model::<K>(),
        ensures
            final(self).windows() == kept_after_cleanup(old(self).windows(), now, threshold),
    {
        let ghost before = self.windows@;
        let mut stale: Vec<K> = Vec::new();
        let iter = self.windows.iter();
        let ghost pairs = vstd::std_specs::iter::IteratorSpec::remaining(&iter);
        assert(pairs == vstd::std_specs::iter::IteratorSpec::remaining(&vstd::std_specs::hash::spec_hash_map_iter(&self.windows)));
        for entry in it: iter
            invariant
                self.windows@ == before,
                vstd::std_specs::hash::obeys_key_model::<K>(),
                it.seq() == pairs,
                forall|i: int| 0 <= i < pairs.len() ==> before.contains_key(*(#[trigger] pairs[i]).0) && before[*pairs[i].0] == *pairs[i].1,
                forall|i: int| 0 <= i < stale@.len() ==> {
                    &&& before.contains_key(#[trigger] stale@[i])
                    &&& elapsed(now, before[stale@[i]].window_start) >= threshold
                },
                forall|i: int| 0 <= i < it.index() ==> {
                    let (k, w) = #[trigger] it.seq()[i];
                    elapsed(now, w.window_start) >= threshold ==> stale@.contains(*k)
                },
        {
            let (k, w) = entry;
            let ghost old_stale = stale@;
            assert(entry == it.seq()[it.index() as int]);
            let since = if now >= w.window_start { now - w.window_start } else { 0 };
            if since >= threshold {
                stale.push(*k);
            }
            proof {
                assert forall|i: int| 0 <= i < it.index() + 1 implies {
                    let (k1, w1) = #[trigger] it.seq()[i];
                    elapsed(now, w1.window_start) >= threshold ==> stale@.contains(*k1)
                } by {
                    if i < it.index() {
                        let (k1, w1) = it.seq()[i];
                        if elapsed(now, w1.window_start) >= threshold {
                            assert(old_stale.contains(*k1));
                            let m = choose|m: int| 0 <= m < old_stale.len() && old_stale[m] == *k1;
                            assert(stale@[m] == *k1);
                        }
                    } else {
                        if elapsed(now, w.window_start) >= threshold {
                            assert(stale@[stale@.len() - 1] == *k);
                        }
                    }
                }
            }
        }
        let mut j: usize = 0;
        while j < stale.len()
            invariant
                j <= stale.len(),
                vstd::std_specs::hash::obeys_key_model::<K>(),
                forall|i: int| 0 <= i < stale@.len() ==> {
                    &&& before.contains_key(#[trigger] stale@[i])
                    &&& elapsed(now, before[stale@[i]].window_start) >= threshold
                },
                forall|k: K| #[trigger] self.windows@.contains_key(k) ==> before.contains_key(k) && self.windows@[k] == before[k],
                forall|k: K| before.contains_key(k) && !stale@.take(j as int).contains(k) ==> #[trigger] self.windows@.contains_key(k),
                forall|i: int| 0 <= i < j ==> !self.windows@.contains_key(#[trigger] stale@[i]),
            decreases stale.len() - j,
        {
            let k = stale[j];
            self.windows.remove(&k);
            proof {
                assert forall|k2: K| before.contains_key(k2) && !stale@.take(j + 1).contains(k2) implies #[trigger] self.windows@.contains_key(k2) by {
                    assert(stale@.take(j + 1) =~= stale@.take(j as int).push(stale@[j as int]));
                    assert(stale@.take(j + 1)[j as int] == stale@[j as int]);
                    assert(k2 != stale@[j as int]);
                    if stale@.take(j as int).contains(k2) {
                        assert(stale@.take(j + 1).contains(k2));
                    }
                }
            }
            j = j + 1;
        }
        proof {
            let expected = kept_after_cleanup(before, now, threshold);
            assert(stale@.take(stale@.len() as int) =~= stale@);
            assert forall|k: K| #[trigger] self.windows@.contains_key(k) <==> expected.contains_key(k) by {
                if self.windows@.contains_key(k) {
                    if elapsed(now, before[k].window_start) >= threshold {
                        assert(pairs.contains((&k, &before[k])));
                        let i = choose|i: int| 0 <= i < pairs.len() && pairs[i] == (&k, &before[k]);
                        assert(stale@.contains(k));
                        let m = choose|m: int| 0 <= m < stale@.len() && stale@[m] == k;
                        assert(!self.windows@.contains_key(stale@[m]));
                    }
                } else if before.contains_key(k) {
                    let i = choose|i: int| 0 <= i < stale@.len() && stale@[i] == k;
                    assert(elapsed(now, before[stale@[i]].window_start) >= threshold);
                }
            }
            assert(self.windows@ =~= expected);
        }
    }
}


/// An IP address as the limiter keys it.
#[derive(Debug, Clone, Copy, PartialEq, Eq, Structural)]
pub enum IpKey {
    V4(u32),
    V6(u128),
}

/// The windows of one kind of action, by IP address.
pub struct IpRateTable {
    v4: RateTable<u32>,
    v6: RateTable<u128>,
}

impl IpRateTable {
    /// The window of each IPv4 address that has one.
    pub closed spec fn v4_windows(&self) -> Map<u32, RateWindow> {
        self.v4.windows()
    }

    /// The window of each IPv6 address that has one.
    pub closed spec fn v6_windows(&self) -> Map<u128, RateWindow> {
        self.v6.windows()
    }

    /// The window of an address, if it has one.
    pub open spec fn window_of(&self, ip: IpKey) -> Option<RateWindow> {
        match ip {
            IpKey::V4(a) => if self.v4_windows().contains_key(a) { Some(self.v4_windows()[a]) } else { None },
            IpKey::V6(a) => if self.v6_windows().contains_key(a) { Some(self.v6_windows()[a]) } else { None },
        }
    }

    /// An empty table.
    pub fn new() -> (t: Self)
        ensures
            t.v4_windows() == Map::<u32, RateWindow>::empty(),
            t.v6_windows() == Map::<u128, RateWindow>::empty(),
    {
        IpRateTable { v4: RateTable::new(), v6: RateTable::new() }
    }

    /// Count one action of `ip` at `now`; see `RateTable::check`.
    pub fn check(&mut self, ip: IpKey, now: u64, window: u64, max: usize) -> (admitted: bool)
        ensures
            ({
                let (w, ok) = window_step(old(self).window_of(ip), now, window, max);
                &&& admitted == ok
                &&& match ip {
                    IpKey::V4(a) => {
                        &&& final(self).v4_windows() == old(self).v4_windows().insert(a, w)
                        &&& final(self).v6_windows() == old(self).v6_windows()
                    },
                    IpKey::V6(a) => {
                        &&& final(self).v6_windows() == old(self).v6_windows().insert(a, w)
                        &&& final(self).v4_windows() == old(self).v4_windows()
                    },
                }
            }),
    {
        match ip {
            IpKey::V4(a) => self.v4.check(a, now, window, max),
            IpKey::V6(a) => self.v6.check(a, now, window, max),
        }
    }

    /// Drop the windows that began `threshold` or longer before `now`.
    pub fn cleanup(&mut self, now: u64, threshold: u64)
        ensures
            final(self).v4_windows() == kept_after_cleanup(old(self).v4_windows(), now, threshold),
            final(self).v6_windows() == kept_after_cleanup(old(self).v6_windows(), now, threshold),
    {
        self.v4.cleanup(now, threshold);
        self.v6.cleanup(now, threshold);
    }
}

/// The refusal message for a user who sent too many messages.
pub open spec fn message_limit_text(max: usize) -> Seq<char> {
    "Rate limit exceeded. Maximum "@ + decimal_text(max as nat) + " messages per minute."@
}

/// The refusal message for an address that made too many requests.
pub open spec fn request_limit_text(max: usize) -> Seq<char> {
    "Rate limit exceeded. Maximum "@ + decimal_text(max as nat) + " requests per second."@
}

/// Rate limiting service to prevent spam and abuse.
pub struct RateLimitService {
    message_limits: RateTable<u128>,
    request_limits: IpRateTable,
    file_upload_limits: RateTable<u128>,
    registration_limits: IpRateTable,
    login_limits: IpRateTable,
    config: RateLimitConfig,
    clock_origin: Instant,
    latest_reading: u64,
}

/// How many keys each kind of limit is tracking.
#[derive(Debug, Clone, Copy)]
pub struct RateLimitStats {
    pub tracked_users_messages: usize,
    pub tracked_ips_requests: usize,
    pub tracked_users_uploads: usize,
    pub tracked_ips_registrations: usize,
    pub tracked_ips_logins: usize,
}

impl RateLimitService {
    /// The message window of each user that has one.
    pub closed spec fn message_windows(&self) -> Map<u128, RateWindow> {
        self.message_limits.windows()
    }

    /// The request windows, by address.
    pub closed spec fn request_windows(&self) -> IpRateTable {
        self.request_limits
    }

    /// The upload window of each user that has one.
    pub closed spec fn upload_windows(&self) -> Map<u128, RateWindow> {
        self.file_upload_limits.windows()
    }

    /// The registration windows, by address.
    pub closed spec fn registration_windows(&self) -> IpRateTable {
        self.registration_limits
    }

    /// The login windows, by address.
    pub closed spec fn login_windows(&self) -> IpRateTable {
        self.login_limits
    }

    /// The limits in force.
    pub closed spec fn limits(&self) -> RateLimitConfig {
        self.config
    }

    /// The latest time the service has taken from its clock (zero before the first).
    pub closed spec fn clock_reading(&self) -> u64 {
        self.latest_reading
    }

    /// A limiter with the given limits and nothing tracked yet; its clock starts now.
    pub fn new(config: RateLimitConfig) -> (s: Self)
        ensures
            s.limits() == config,
            s.message_windows() == Map::<u128, RateWindow>::empty(),
            s.upload_windows() == Map::<u128, RateWindow>::empty(),
            s.request_windows().v4_windows() == Map::<u32, RateWindow>::empty(),
            s.request_windows().v6_windows() == Map::<u128, RateWindow>::empty(),
            s.registration_windows().v4_windows() == Map::<u32, RateWindow>::empty(),
            s.registration_windows().v6_windows() == Map::<u128, RateWindow>::empty(),
            s.login_windows().v4_windows() == Map::<u32, RateWindow>::empty(),
            s.login_windows().v6_windows() == Map::<u128, RateWindow>::empty(),
            s.clock_reading() == 0,
    {
        RateLimitService {
            message_limits: RateTable::new(),
            request_limits: IpRateTable::new(),
            file_upload_limits: RateTable::new(),
            registration_limits: IpRateTable::new(),
            login_limits: IpRateTable::new(),
            config,
            clock_origin: clock_now(),
            latest_reading: 0,
        }
    }

    /// The service's clock: nanoseconds since it was created (at most `u64::MAX`).
    /// `Instant` is monotonic, and the service never goes back behind its latest
    /// reading either: each reading is kept, and the time given is never earlier.
    fn clock(&mut self) -> (now: u64)
        ensures
            now >= old(self).latest_reading,
            *final(self) == (RateLimitService { latest_reading: now, ..*old(self) }),
    {
        let n = nanos_since(&self.clock_origin);
        let t: u64 = if n > 0xffff_ffff_ffff_ffffu128 {
            0xffff_ffff_ffff_ffffu64
        } else {
            n as u64
        };
        let now: u64 = if t < self.latest_reading { self.latest_reading } else { t };
        self.latest_reading = now;
        now
    }

    /// Check whether a user may send a message now, counting it when they may.
    pub fn check_message_rate_limit(&mut self, user_id: u128) -> (r: Result<(), String>)
        ensures
            exists|now: u64| now >= old(self).clock_reading() && final(self).clock_reading() == now
                && message_check(*old(self), *final(self), user_id, now, r),
    {
        let ghost before = *self;
        let now = self.clock();
        let r = self.check_message_rate_limit_at(user_id, now);
        assert(message_check(before, *self, user_id, now, r));
        r
    }

    /// Check whether a user may send a message at `now` (nanoseconds on the
    /// service's clock), counting it when they may.
    pub fn check_message_rate_limit_at(&mut self, user_id: u128, now: u64) -> (r: Result<(), String>)
        ensures
            message_check(*old(self), *final(self), user_id, now, r),
            final(self).clock_reading() == old(self).clock_reading(),
    {
        let max = self.config.messages_per_minute;
        if self.message_limits.check(user_id, now, MESSAGE_WINDOW, max) {
            Ok(())
        } else {
            let mut m = String::from_str("Rate limit exceeded. Maximum ");
            let n = format_usize(max);
            m.append(n.as_str());
            m.append(" messages per minute.");
            Err(m)
        }
    }

    /// Check whether an address may make a request now, counting it when it may.
    pub fn check_request_rate_limit(&mut self, ip: IpKey) -> (r: Result<(), String>)
        ensures
            exists|now: u64| now >= old(self).clock_reading() && final(self).clock_reading() == now
                && request_check(*old(self), *final(self), ip, now, r),
    {
        let ghost before = *self;
        let now = self.clock();
        let r = self.check_request_rate_limit_at(ip, now);
        assert(request_check(before, *self, ip, now, r));
        r
    }

    /// Check whether an address may make a request at `now`, counting it when it may.
    pub fn check_request_rate_limit_at(&mut self, ip: IpKey, now: u64) -> (r: Result<(), String>)
        ensures
            request_check(*old(self), *final(self), ip, now, r),
            final(self).clock_reading() == old(self).clock_reading(),
    {
        let max = self.config.requests_per_second;
        if self.request_limits.check(ip, now, REQUEST_WINDOW, max) {
            Ok(())
        } else {
            let mut m = String::from_str("Rate limit exceeded. Maximum ");
            let n = format_usize(max);
            m.append(n.as_str());
            m.append(" requests per second.");
            Err(m)
        }
    }

    /// Drop every window that began two hours or more ago.
    pub fn cleanup_old_entries(&mut self)
        ensures
            exists|now: u64| now >= old(self).clock_reading() && final(self).clock_reading() == now
                && cleaned_up(*old(self), *final(self), now),
    {
        let ghost before = *self;
        let now = self.clock();
        self.cleanup_old_entries_at(now);
        assert(cleaned_up(before, *self, now));
    }

    /// Drop every window that began two hours or more before `now`.
    pub fn cleanup_old_entries_at(&mut self, now: u64)
        ensures
            cleaned_up(*old(self), *final(self), now),
            final(self).clock_reading() == old(self).clock_reading(),
    {
        self.message_limits.cleanup(now, CLEANUP_THRESHOLD);
        self.request_limits.cleanup(now, CLEANUP_THRESHOLD);
        self.file_upload_limits.cleanup(now, CLEANUP_THRESHOLD);
        self.registration_limits.cleanup(now, CLEANUP_THRESHOLD);
        self.login_limits.cleanup(now, CLEANUP_THRESHOLD);
    }
}

/// A message check of `user_id` at `now` took the limiter from `before` to `after`
/// and answered `r`: the user's window took one step and nothing else changed; the
/// answer is success when admitted, else the refusal naming the limit.
pub open spec fn message_check(before: RateLimitService, after: RateLimitService, user_id: u128, now: u64, r: Result<(), String>) -> bool {
    let prev = if before.message_windows().contains_key(user_id) {
        Some(before.message_windows()[user_id])
    } else {
        None::<RateWindow>
    };
    let max = before.limits().messages_per_minute;
    let (w, ok) = window_step(prev, now, MESSAGE_WINDOW, max);
    &&& after.message_windows() == before.message_windows().insert(user_id, w)
    &&& after.limits() == before.limits()
    &&& after.request_windows() == before.request_windows()
    &&& after.upload_windows() == before.upload_windows()
    &&& after.registration_windows() == before.registration_windows()
    &&& after.login_windows() == before.login_windows()
    &&& (ok ==> r is Ok)
    &&& (!ok ==> (r matches Err(m) && m@ == message_limit_text(max)))
}

/// A request check of `ip` at `now` took the limiter from `before` to `after` and
/// answered `r`: the address's window took one step and nothing else changed.
pub open spec fn request_check(before: RateLimitService, after: RateLimitService, ip: IpKey, now: u64, r: Result<(), String>) -> bool {
    let max = before.limits().requests_per_second;
    let (w, ok) = window_step(before.request_windows().window_of(ip), now, REQUEST_WINDOW, max);
    &&& match ip {
        IpKey::V4(a) => {
            &&& after.request_windows().v4_windows() == before.request_windows().v4_windows().insert(a, w)
            &&& after.request_windows().v6_windows() == before.request_windows().v6_windows()
        },
        IpKey::V6(a) => {
            &&& after.request_windows().v6_windows() == before.request_windows().v6_windows().insert(a, w)
            &&& after.request_windows().v4_windows() == before.request_windows().v4_windows()
        },
    }
    &&& after.limits() == before.limits()
    &&& after.message_windows() == before.message_windows()
    &&& after.upload_windows() == before.upload_windows()
    &&& after.registration_windows() == before.registration_windows()
    &&& after.login_windows() == before.login_windows()
    &&& (ok ==> r is Ok)
    &&& (!ok ==> (r matches Err(m) && m@ == request_limit_text(max)))
}

/// A cleanup at `now` took the limiter from `before` to `after`: every kind of limit
/// kept exactly its windows younger than two hours.
pub open spec fn cleaned_up(before: RateLimitService, after: RateLimitService, now: u64) -> bool {
    &&& after.limits() == before.limits()
    &&& after.message_windows() == kept_after_cleanup(before.message_windows(), now, CLEANUP_THRESHOLD)
    &&& after.upload_windows() == kept_after_cleanup(before.upload_windows(), now, CLEANUP_THRESHOLD)
    &&& after.request_windows().v4_windows() == kept_after_cleanup(before.request_windows().v4_windows(), now, CLEANUP_THRESHOLD)
    &&& after.request_windows().v6_windows() == kept_after_cleanup(before.request_windows().v6_windows(), now, CLEANUP_THRESHOLD)
    &&& after.registration_windows().v4_windows() == kept_after_cleanup(before.registration_windows().v4_windows(), now, CLEANUP_THRESHOLD)
    &&& after.registration_windows().v6_windows() == kept_after_cleanup(before.registration_windows().v6_windows(), now, CLEANUP_THRESHOLD)
    &&& after.login_windows().v4_windows() == kept_after_cleanup(before.login_windows().v4_windows(), now, CLEANUP_THRESHOLD)
    &&& after.login_windows().v6_windows() == kept_after_cleanup(before.login_windows().v6_windows(), now, CLEANUP_THRESHOLD)
}

/// How many of a run of checks at the given times are admitted, starting from `w`.
pub open spec fn admitted_count(w: Option<RateWindow>, times: Seq<u64>, window: u64, max: usize) -> nat
    decreases times.len(),
{
    if times.len() == 0 {
        0
    } else {
        let (w1, ok) = window_step(w, times[0], window, max);
        (if ok { 1nat } else { 0nat }) + admitted_count(Some(w1), times.drop_first(), window, max)
    }
}

/// A check never lets a window count more than the limit: a window that holds at
/// most `max` actions still does after one more check.
pub proof fn lemma_check_stays_within_limit(prev: Option<RateWindow>, now: u64, window: u64, max: usize)
    requires
        prev matches Some(w) ==> w.count <= max,
    ensures
        window_step(prev, now, window, max).0.count <= max,
        window_step(prev, now, window, max).1 ==> window_step(prev, now, window, max).0.count >= 1,
{
}

/// A refused check changes nothing but the start of a window that had expired:
/// the count it leaves is the count it found (after a possible restart).
pub proof fn lemma_refusal_does_not_count(prev: Option<RateWindow>, now: u64, window: u64, max: usize)
    requires
        !window_step(prev, now, window, max).1,
    ensures
        window_step(prev, now, window, max).0.count >= max,
        (prev matches Some(w) && elapsed(now, w.window_start) < window) ==> window_step(prev, now, window, max).0 == prev->0,
{
}

/// A window that has lasted its full length starts over: checking against it is
/// the same as checking a key that has no window yet.
pub proof fn lemma_expired_window_starts_over(w: RateWindow, now: u64, window: u64, max: usize)
    requires
        elapsed(now, w.window_start) >= window,
    ensures
        window_step(Some(w), now, window, max) == window_step(None, now, window, max),
{
}

/// Within one window, at most the limit is admitted: over any run of checks at
/// times inside the window of `w` (which has counted `w.count <= max` actions),
/// no more than `max - w.count` are admitted.
pub proof fn lemma_window_admits_at_most_limit(w: RateWindow, times: Seq<u64>, window: u64, max: usize)
    requires
        w.count <= max,
        forall|i: int| 0 <= i < times.len() ==> w.window_start <= #[trigger] times[i] && times[i] - w.window_start < window,
    ensures
        admitted_count(Some(w), times, window, max) <= max - w.count,
    decreases times.len(),
{
    if times.len() > 0 {
        let (w1, ok) = window_step(Some(w), times[0], window, max);
        assert(w1.window_start == w.window_start);
        assert(w1.count == if ok { w.count + 1 } else { w.count as int });
        assert forall|i: int| 0 <= i < times.drop_first().len() implies w1.window_start <= #[trigger] times.drop_first()[i]
            && times.drop_first()[i] - w1.window_start < window by {
            assert(times.drop_first()[i] == times[i + 1]);
        }
        lemma_window_admits_at_most_limit(w1, times.drop_first(), window, max);
    }
}

/// A key with no window admits at most the limit over a run of checks that all
/// fall within one window length of the first.
pub proof fn lemma_fresh_key_admits_at_most_limit(times: Seq<u64>, window: u64, max: usize)
    requires
        times.len() > 0,
        window > 0,
        forall|i: int| 0 <= i < times.len() ==> times[0] <= #[trigger] times[i] && times[i] - times[0] < window,
    ensures
        admitted_count(None, times, window, max) <= max,
{
    let (w1, ok) = window_step(None, times[0], window, max);
    assert(w1.window_start == times[0]);
    assert forall|i: int| 0 <= i < times.drop_first().len() implies w1.window_start <= #[trigger] times.drop_first()[i]
        && times.drop_first()[i] - w1.window_start < window by {
        assert(times.drop_first()[i] == times[i + 1]);
    }
    lemma_window_admits_at_most_limit(w1, times.drop_first(), window, max);
}

/// The window that a map of windows holds for a key, if any.
pub open spec fn window_in<K>(m: Map<K, RateWindow>, k: K) -> Option<RateWindow> {
    if m.contains_key(k) { Some(m[k]) } else { None::<RateWindow> }
}

proof fn lemma_message_run_prefix(
    states: Seq<RateLimitService>,
    user: u128,
    times: Seq<u64>,
    results: Seq<Result<(), String>>,
    i: int,
)
    requires
        1 <= i <= times.len(),
        states.len() == times.len() + 1,
        results.len() == times.len(),
        match window_in(states[0].message_windows(), user) {
            None => true,
            Some(w) => elapsed(times[0], w.window_start) >= MESSAGE_WINDOW,
        },
        forall|j: int| 0 <= j < times.len() ==> message_check(states[j], states[j + 1], user, times[j], #[trigger] results[j]),
        forall|j: int| 0 <= j < times.len() ==> times[0] <= #[trigger] times[j] && times[j] - times[0] < MESSAGE_WINDOW,
    ensures
        states[i].limits() == states[0].limits(),
        states[i].message_windows().contains_key(user),
        states[i].message_windows()[user] == (RateWindow {
            count: (if i < states[0].limits().messages_per_minute { i } else { states[0].limits().messages_per_minute as int }) as usize,
            window_start: times[0],
        }),
        states[i].message_windows().remove(user) == states[0].message_windows().remove(user),
        forall|j: int| 0 <= j < i ==> ((#[trigger] results[j]) is Ok <==> j < states[0].limits().messages_per_minute),
        forall|j: int| 0 <= j < i && j >= states[0].limits().messages_per_minute ==>
            ((#[trigger] results[j]) matches Err(m) && m@ == message_limit_text(states[0].limits().messages_per_minute)),
    decreases i,
{
    let n = states[0].limits().messages_per_minute;
    let j = i - 1;
    assert(message_check(states[j], states[j + 1], user, times[j], results[j]));
    assert(times[0] <= times[j] && times[j] - times[0] < MESSAGE_WINDOW);
    if i == 1 {
        match window_in(states[0].message_windows(), user) {
            None => {},
            Some(w) => {
                lemma_expired_window_starts_over(w, times[0], MESSAGE_WINDOW, n);
            },
        }
    } else {
        lemma_message_run_prefix(states, user, times, results, i - 1);
    }
    assert(states[i].message_windows().remove(user) =~= states[j].message_windows().remove(user));
}

/// Within one window, a user's message checks are admitted exactly while fewer than
/// the limit have been: over `k` checks within a minute of the first, of a user with
/// no window yet (or one that has run out by the first), exactly the first `min(k, n)`
/// pass and every later one gets the refusal naming the limit `n`; the windows of
/// every other user, and the limits, are left as they were.
pub proof fn lemma_message_checks_in_one_window(
    states: Seq<RateLimitService>,
    user: u128,
    times: Seq<u64>,
    results: Seq<Result<(), String>>,
)
    requires
        states.len() == times.len() + 1,
        results.len() == times.len(),
        times.len() > 0 ==> match window_in(states[0].message_windows(), user) {
            None => true,
            Some(w) => elapsed(times[0], w.window_start) >= MESSAGE_WINDOW,
        },
        forall|j: int| 0 <= j < times.len() ==> message_check(states[j], states[j + 1], user, times[j], #[trigger] results[j]),
        forall|j: int| 0 <= j < times.len() ==> times[0] <= #[trigger] times[j] && times[j] - times[0] < MESSAGE_WINDOW,
    ensures
        forall|j: int| 0 <= j < times.len() ==> ((#[trigger] results[j]) is Ok <==> j < states[0].limits().messages_per_minute),
        forall|j: int| 0 <= j < times.len() && j >= states[0].limits().messages_per_minute ==>
            ((#[trigger] results[j]) matches Err(m) && m@ == message_limit_text(states[0].limits().messages_per_minute)),
        states.last().message_windows().remove(user) == states[0].message_windows().remove(user),
        states.last().limits() == states[0].limits(),
{
    if times.len() > 0 {
        lemma_message_run_prefix(states, user, times, results, times.len() as int);
    }
}

/// Checking a key at `now` gives the same step whether or not its windows were
/// cleaned at an earlier time `tc` (a dropped window would have started over anyway),
/// and cleaning the updated windows at `tc` gives the cleaned windows with the same
/// update.
pub proof fn lemma_cleanup_then_step<K>(m: Map<K, RateWindow>, k: K, tc: u64, now: u64, window: u64, max: usize)
    requires
        tc <= now,
        0 < window <= CLEANUP_THRESHOLD,
    ensures
        window_step(window_in(m, k), now, window, max)
            == window_step(window_in(kept_after_cleanup(m, tc, CLEANUP_THRESHOLD), k), now, window, max),
        kept_after_cleanup(m.insert(k, window_step(window_in(m, k), now, window, max).0), tc, CLEANUP_THRESHOLD)
            == kept_after_cleanup(m, tc, CLEANUP_THRESHOLD).insert(k, window_step(window_in(m, k), now, window, max).0),
{
    let kept = kept_after_cleanup(m, tc, CLEANUP_THRESHOLD);
    if m.contains_key(k) && !kept.contains_key(k) {
        assert(elapsed(tc, m[k].window_start) >= CLEANUP_THRESHOLD);
        lemma_expired_window_starts_over(m[k], now, window, max);
    }
    let w = window_step(window_in(m, k), now, window, max).0;
    assert(elapsed(tc, w.window_start) < CLEANUP_THRESHOLD);
    let lhs = kept_after_cleanup(m.insert(k, w), tc, CLEANUP_THRESHOLD);
    let rhs = kept.insert(k, w);
    assert forall|x: K| #[trigger] lhs.contains_key(x) <==> rhs.contains_key(x) by {}
    assert forall|x: K| lhs.contains_key(x) implies #[trigger] lhs[x] == rhs[x] by {}
    assert(lhs =~= rhs);
}

/// A cleanup never changes what a later message check answers: when `cleaned` is
/// `before` cleaned at `tc`, a check of any user at a time `now` no earlier than `tc`
/// answers the same on both, leaves that user the same window on both, and the two
/// limiters are again one the other cleaned at `tc`.
pub proof fn lemma_cleanup_keeps_message_answers(
    before: RateLimitService,
    cleaned: RateLimitService,
    tc: u64,
    user: u128,
    now: u64,
    before_after: RateLimitService,
    cleaned_after: RateLimitService,
    r1: Result<(), String>,
    r2: Result<(), String>,
)
    requires
        cleaned_up(before, cleaned, tc),
        tc <= now,
        message_check(before, before_after, user, now, r1),
        message_check(cleaned, cleaned_after, user, now, r2),
    ensures
        r1 is Ok <==> r2 is Ok,
        r1 matches Err(m1) ==> (r2 matches Err(m2) && m1@ == m2@),
        window_in(before_after.message_windows(), user) == window_in(cleaned_after.message_windows(), user),
        cleaned_up(before_after, cleaned_after, tc),
{
    lemma_cleanup_then_step(before.message_windows(), user, tc, now, MESSAGE_WINDOW, before.limits().messages_per_minute);
}

/// A cleanup never changes what a later request check answers: as for messages, for
/// any address checked at a time no earlier than the cleanup.
pub proof fn lemma_cleanup_keeps_request_answers(
    before: RateLimitService,
    cleaned: RateLimitService,
    tc: u64,
    ip: IpKey,
    now: u64,
    before_after: RateLimitService,
    cleaned_after: RateLimitService,
    r1: Result<(), String>,
    r2: Result<(), String>,
)
    requires
        cleaned_up(before, cleaned, tc),
        tc <= now,
        request_check(before, before_after, ip, now, r1),
        request_check(cleaned, cleaned_after, ip, now, r2),
    ensures
        r1 is Ok <==> r2 is Ok,
        r1 matches Err(m1) ==> (r2 matches Err(m2) && m1@ == m2@),
        before_after.request_windows().window_of(ip) == cleaned_after.request_windows().window_of(ip),
        cleaned_up(before_after, cleaned_after, tc),
{
    let max = before.limits().requests_per_second;
    match ip {
        IpKey::V4(a) => {
            lemma_cleanup_then_step(before.request_windows().v4_windows(), a, tc, now, REQUEST_WINDOW, max);
        },
        IpKey::V6(a) => {
            lemma_cleanup_then_step(before.request_windows().v6_windows(), a, tc, now, REQUEST_WINDOW, max);
        },
    }
}

} // verus!
