//! Rate limiting, input validation and request sanitization.
//!
//! Times are readings of a monotonic clock in nanoseconds, passed in by the
//! caller.  A rate limiter remembers, per client address, the times of the
//! requests it allowed; a request is allowed while fewer than
//! `requests_per_minute` allowed requests lie in the last minute.

use vstd::prelude::*;
use vstd::string::StringSliceAdditionalSpecFns;
use crate::time::{instant_now, nanos_since};
use crate::strings::{
    chars_of, contains_seq, has_prefix, is_alphanumeric, is_whitespace, owned, seq_contains,
    seq_has_prefix, split_char, split_on, string_from_chars, trim, trim_chars, unicode_alphanumeric,
    unicode_whitespace,
};

verus! {

broadcast use vstd::string::group_string_axioms;

/// Nanoseconds in one second.
pub const NANOS_PER_SECOND: u64 = 1_000_000_000;

/// The window over which requests are counted: one minute.
pub const RATE_WINDOW: u64 = 60_000_000_000;

/// How long a client may stay silent before its record is dropped: five
/// minutes.
pub const STALE_AFTER: u64 = 300_000_000_000;

/// Rate limiting configuration.
#[derive(Debug)]
pub struct RateLimitConfig {
    pub requests_per_minute: u32,
    pub burst_size: u32,
    /// Time between clean-ups of silent clients, in nanoseconds.
    pub cleanup_interval: u64,
}

impl Default for RateLimitConfig {
    /// 60 requests per minute, a burst of 10, clean-up every minute.
    fn default() -> (c: Self)
        ensures
            c.requests_per_minute == 60,
            c.burst_size == 10,
            c.cleanup_interval == 60 * NANOS_PER_SECOND,
    {
        RateLimitConfig {
            requests_per_minute: 60,
            burst_size: 10,
            cleanup_interval: 60 * NANOS_PER_SECOND,
        }
    }
}

/// A client address: an IPv4 address (in the low 32 bits) or an IPv6
/// address.
#[derive(Clone, Copy, Debug, PartialEq, Eq, Structural)]
pub struct ClientIp {
    pub is_v6: bool,
    pub bits: u128,
}

/// The address 127.0.0.1.
pub open spec fn localhost() -> ClientIp {
    ClientIp { is_v6: false, bits: 0x7f00_0001 }
}

/// The times of the allowed requests of one client.
#[derive(Debug)]
pub struct RateLimitEntry {
    pub requests: Vec<u64>,
    pub last_request: u64,
}

/// The times in `ts` that lie after `cutoff`, in order.
pub open spec fn after_cutoff(ts: Seq<u64>, cutoff: u64) -> Seq<u64>
    decreases ts.len(),
{
    if ts.len() == 0 {
        Seq::empty()
    } else {
        let rest = after_cutoff(ts.drop_last(), cutoff);
        if ts.last() > cutoff {
            rest.push(ts.last())
        } else {
            rest
        }
    }
}

/// Filtering never lengthens a sequence of times.
pub proof fn lemma_after_cutoff_len(ts: Seq<u64>, cutoff: u64)
    ensures
        after_cutoff(ts, cutoff).len() <= ts.len(),
    decreases ts.len(),
{
    if ts.len() > 0 {
        lemma_after_cutoff_len(ts.drop_last(), cutoff);
    }
}

/// Filtering twice with the same cutoff is filtering once.
pub proof fn lemma_after_cutoff_idempotent(ts: Seq<u64>, cutoff: u64)
    ensures
        after_cutoff(after_cutoff(ts, cutoff), cutoff) == after_cutoff(ts, cutoff),
    decreases ts.len(),
{
    if ts.len() > 0 {
        lemma_after_cutoff_idempotent(ts.drop_last(), cutoff);
        let rest = after_cutoff(ts.drop_last(), cutoff);
        if ts.last() > cutoff {
            assert(rest.push(ts.last()).drop_last() =~= rest);
        }
    }
}

impl RateLimitEntry {
    /// A client with no allowed requests yet, first seen at `now`.
    pub fn new(now: u64) -> (e: Self)
        ensures
            e.requests@ == Seq::<u64>::empty(),
            e.last_request == now,
    {
        RateLimitEntry { requests: Vec::new(), last_request: now }
    }

    /// Records an allowed request at `now`.
    pub fn add_request(&mut self, now: u64)
        ensures
            final(self).requests@ == old(self).requests@.push(now),
            final(self).last_request == now,
    {
        self.requests.push(now);
        self.last_request = now;
    }

    /// Forgets the requests older than `window` before `now`.
    pub fn cleanup_old_requests(&mut self, window: u64, now: u64)
        requires
            now >= window,
        ensures
            final(self).requests@ == after_cutoff(old(self).requests@, (now - window) as u64),
            final(self).last_request == old(self).last_request,
    {
        let cutoff = now - window;
        let mut kept: Vec<u64> = Vec::new();
        let mut i: usize = 0;
        while i < self.requests.len()
            invariant
                i <= self.requests@.len(),
                kept@ == after_cutoff(self.requests@.take(i as int), cutoff),
            decreases self.requests@.len() - i,
        {
            assert(self.requests@.take(i + 1).drop_last() =~= self.requests@.take(i as int));
            let t = self.requests[i];
            if t > cutoff {
                kept.push(t);
            }
            i = i + 1;
        }
        assert(self.requests@.take(self.requests@.len() as int) =~= self.requests@);
        self.requests = kept;
    }

    /// The number of remembered requests.
    pub fn request_count(&self) -> (n: usize)
        ensures
            n == self.requests@.len(),
    {
        self.requests.len()
    }
}

/// The client addresses are distinct.
pub open spec fn ips_unique(s: Seq<(ClientIp, RateLimitEntry)>) -> bool {
    forall|i: int, j: int| 0 <= i < j < s.len() ==> s[i].0 != s[j].0
}

/// Whether `s` has an entry for `ip`.
pub open spec fn knows_in(s: Seq<(ClientIp, RateLimitEntry)>, ip: ClientIp) -> bool {
    exists|i: int| 0 <= i < s.len() && s[i].0 == ip
}

/// The record of `ip` in `s` (meaningful when `knows_in(s, ip)`).
pub open spec fn record_in(s: Seq<(ClientIp, RateLimitEntry)>, ip: ClientIp) -> ClientRecord {
    let i = choose|i: int| 0 <= i < s.len() && s[i].0 == ip;
    ClientRecord { requests: s[i].1.requests@, last_request: s[i].1.last_request }
}

/// Replacing or adding the entry of `ip` leaves every other client's
/// record as it was.
proof fn lemma_frame(
    s1: Seq<(ClientIp, RateLimitEntry)>,
    s2: Seq<(ClientIp, RateLimitEntry)>,
    ip: ClientIp,
    i: int,
)
    requires
        ips_unique(s1),
        ips_unique(s2),
        0 <= i <= s1.len(),
        i < s2.len(),
        s2[i].0 == ip,
        i < s1.len() ==> s1[i].0 == ip && s2.len() == s1.len(),
        i == s1.len() ==> s2.len() == s1.len() + 1,
        forall|j: int| 0 <= j < s1.len() && j != i ==> s2[j] == s1[j],
    ensures
        forall|other: ClientIp|
            other != ip ==> (#[trigger] knows_in(s2, other)) == knows_in(s1, other) && (knows_in(
                s1,
                other,
            ) ==> record_in(s2, other) == record_in(s1, other)),
{
    assert forall|other: ClientIp| other != ip implies (#[trigger] knows_in(s2, other)) == knows_in(
        s1,
        other,
    ) && (knows_in(s1, other) ==> record_in(s2, other) == record_in(s1, other)) by {
        if knows_in(s1, other) {
            let j = choose|j: int| 0 <= j < s1.len() && s1[j].0 == other;
            assert(j != i);
            assert(s2[j] == s1[j]);
            assert(knows_in(s2, other));
            let j2 = choose|j2: int| 0 <= j2 < s2.len() && s2[j2].0 == other;
            assert(j2 == j);
        }
        if knows_in(s2, other) {
            let j2 = choose|j2: int| 0 <= j2 < s2.len() && s2[j2].0 == other;
            assert(j2 != i);
            assert(j2 < s1.len());
            assert(s2[j2] == s1[j2]);
            assert(knows_in(s1, other));
        }
    }
}

/// What checking `ip` at `now` leaves: the client's requests of the last
/// minute are kept, the request is allowed when fewer than the limit
/// remain and is then recorded, and every other client is as it was.
pub open spec fn rate_checked(
    before: RateLimiter,
    after: RateLimiter,
    ip: ClientIp,
    now: u64,
    allowed: bool,
) -> bool {
    let kept = after_cutoff(before.history(ip), (now - RATE_WINDOW) as u64);
    &&& after.knows(ip)
    &&& allowed == (kept.len() < before.settings().requests_per_minute)
    &&& after.history(ip) == if allowed {
        kept.push(now)
    } else {
        kept
    }
    &&& forall|other: ClientIp|
        other != ip ==> (#[trigger] after.knows(other)) == before.knows(other) && (before.knows(
            other,
        ) ==> after.record(other) == before.record(other))
}

/// What forgetting the clients idle for five minutes at `now` leaves.
pub open spec fn stale_cleaned(before: RateLimiter, after: RateLimiter, now: u64) -> bool {
    &&& forall|ip: ClientIp|
        #[trigger] after.knows(ip) <==> (before.knows(ip) && before.record(ip).last_request > now
            - STALE_AFTER)
    &&& forall|ip: ClientIp| #[trigger] after.knows(ip) ==> after.record(ip) == before.record(ip)
}

/// Rate limiter.
#[derive(Debug)]
pub struct RateLimiter {
    config: RateLimitConfig,
    entries: Vec<(ClientIp, RateLimitEntry)>,
    origin: std::time::Instant,
}

/// What the limiter remembers of one client: its allowed request times
/// and the time of its last allowed (or first) request.
pub struct ClientRecord {
    pub requests: Seq<u64>,
    pub last_request: u64,
}

impl RateLimiter {
    /// The addresses are distinct.
    pub closed spec fn wf(&self) -> bool {
        &&& ips_unique(self.entries@)
        &&& forall|i: int|
            0 <= i < self.entries@.len() ==> (#[trigger] self.entries@[i]).1.requests@.len()
                <= self.config.requests_per_minute
    }

    /// The configuration the limiter was made with.
    pub closed spec fn settings(&self) -> RateLimitConfig {
        self.config
    }

    /// Whether the limiter has a record of `ip`.
    pub closed spec fn knows(&self, ip: ClientIp) -> bool {
        knows_in(self.entries@, ip)
    }

    /// The record of `ip` (meaningful when `knows(ip)`).
    pub closed spec fn record(&self, ip: ClientIp) -> ClientRecord {
        record_in(self.entries@, ip)
    }

    /// The times of the requests allowed to `ip` that are remembered.
    pub open spec fn history(&self, ip: ClientIp) -> Seq<u64> {
        if self.knows(ip) {
            self.record(ip).requests
        } else {
            Seq::empty()
        }
    }

    /// A limiter with no clients.
    pub fn new(config: RateLimitConfig) -> (l: Self)
        ensures
            l.wf(),
            l.settings() == config,
            forall|ip: ClientIp| !l.knows(ip),
    {
        RateLimiter { config, entries: Vec::new(), origin: instant_now() }
    }

    /// The position of `ip`'s record.
    fn position(&self, ip: ClientIp) -> (r: Option<usize>)
        requires
            self.wf(),
        ensures
            match r {
                Some(i) => i < self.entries@.len() && self.entries@[i as int].0 == ip,
                None => !self.knows(ip),
            },
    {
        let mut i: usize = 0;
        while i < self.entries.len()
            invariant
                i <= self.entries@.len(),
                forall|j: int| 0 <= j < i ==> self.entries@[j].0 != ip,
            decreases self.entries@.len() - i,
        {
            if self.entries[i].0 == ip {
                return Some(i);
            }
            i = i + 1;
        }
        None
    }

    /// Decides whether `ip` may make a request at `now`.  The client's
    /// requests older than a minute are forgotten; the request is allowed
    /// when fewer than `requests_per_minute` remain, and is then recorded.
    pub fn check_rate_limit_at(&mut self, ip: ClientIp, now: u64) -> (allowed: bool)
        requires
            old(self).wf(),
            now >= RATE_WINDOW,
        ensures
            final(self).wf(),
            final(self).settings() == old(self).settings(),
            final(self).knows(ip),
            ({
                let kept = after_cutoff(old(self).history(ip), (now - RATE_WINDOW) as u64);
                &&& allowed == (kept.len() < old(self).settings().requests_per_minute)
                &&& final(self).history(ip) == if allowed {
                    kept.push(now)
                } else {
                    kept
                }
            }),
            forall|other: ClientIp|
                other != ip ==> (#[trigger] final(self).knows(other)) == old(self).knows(other)
                    && (old(self).knows(other) ==> final(self).record(other) == old(self).record(other)),
    {
        let ghost old_entries = self.entries@;
        let (i, mut entry) = match self.position(ip) {
            Some(i) => (i, self.entries.remove(i).1),
            None => (self.entries.len(), RateLimitEntry::new(now)),
        };
        proof {
            if i < old_entries.len() {
                assert(self.entries@ == old_entries.remove(i as int));
            } else {
                assert(self.entries@ == old_entries);
            }
        }
        let ghost before_history = entry.requests@;
        proof {
            if i < old_entries.len() {
                assert(old_entries[i as int].0 == ip);
                assert(old(self).knows(ip));
                let j = choose|j: int| 0 <= j < old_entries.len() && old_entries[j].0 == ip;
                assert(j == i);
                assert(old(self).history(ip) == before_history);
            } else {
                assert(!old(self).knows(ip));
                assert(before_history =~= Seq::<u64>::empty());
            }
        }
        proof {
            if i < old_entries.len() {
                assert(old_entries[i as int].1.requests@.len() <= self.config.requests_per_minute);
            }
            lemma_after_cutoff_len(before_history, (now - RATE_WINDOW) as u64);
        }
        entry.cleanup_old_requests(RATE_WINDOW, now);
        let allowed = if entry.request_count() >= self.config.requests_per_minute as usize {
            false
        } else {
            entry.add_request(now);
            true
        };
        let ghost final_history = entry.requests@;
        self.entries.insert(i, (ip, entry));
        proof {
            let s = self.entries@;
            assert(s[i as int].0 == ip);
            assert forall|a: int, b: int| 0 <= a < b < s.len() implies s[a].0 != s[b].0 by {
                if i < old_entries.len() {
                    let oa = if a < i { a } else if a == i { a } else { a };
                    if a != i && b != i {
                        assert(s[a] == old_entries[a]);
                        assert(s[b] == old_entries[b]);
                    } else if a == i {
                        assert(s[b] == old_entries[b]);
                        assert(old_entries[i as int].0 == ip);
                    } else {
                        assert(s[a] == old_entries[a]);
                        assert(old_entries[i as int].0 == ip);
                    }
                } else {
                    if b == i {
                        assert(s[a] == old_entries[a]);
                    } else {
                        assert(s[a] == old_entries[a]);
                        assert(s[b] == old_entries[b]);
                    }
                }
            }
            assert(ips_unique(s));
            assert forall|a: int| 0 <= a < s.len() implies (#[trigger] s[a]).1.requests@.len()
                <= self.config.requests_per_minute by {
                if a != i {
                    assert(s[a] == old_entries[a]);
                }
            }
            assert(self.knows(ip));
            let j = choose|j: int| 0 <= j < s.len() && s[j].0 == ip;
            assert(j == i);
            assert(self.history(ip) == final_history);
            lemma_frame(old_entries, s, ip, i as int);
            assert(old_entries == old(self).entries@);
            assert forall|other: ClientIp| other != ip implies (#[trigger] self.knows(other)) == old(self).knows(other) by {
                assert(knows_in(s, other) == knows_in(old_entries, other));
            }
            assert forall|other: ClientIp| other != ip && old(self).knows(other) implies #[trigger] self.record(other) == old(self).record(other) by {
                assert(knows_in(old_entries, other));
                assert(knows_in(s, other));
                assert(record_in(s, other) == record_in(old_entries, other));
            }
        }
        allowed
    }

    /// Forgets every client whose last request is five minutes or more
    /// before `now`.
    pub fn cleanup_stale_at(&mut self, now: u64)
        requires
            old(self).wf(),
            now >= STALE_AFTER,
        ensures
            final(self).wf(),
            final(self).settings() == old(self).settings(),
            forall|ip: ClientIp|
                #[trigger] final(self).knows(ip) <==> (old(self).knows(ip) && old(self).record(
                    ip,
                ).last_request > now - STALE_AFTER),
            forall|ip: ClientIp|
                #[trigger] final(self).knows(ip) ==> final(self).record(ip) == old(self).record(ip),
    {
        let cutoff = now - STALE_AFTER;
        let ghost old_entries = self.entries@;
        let mut kept: Vec<(ClientIp, RateLimitEntry)> = Vec::new();
        let ghost mut origin: Seq<int> = Seq::empty();
        while self.entries.len() > 0
            invariant
                self.config == old(self).config,
                old_entries == old(self).entries@,
                ips_unique(old_entries),
                self.entries@.len() <= old_entries.len(),
                self.entries@ == old_entries.skip(old_entries.len() - self.entries@.len()),
                origin.len() == kept@.len(),
                forall|k: int| 0 <= k < origin.len() ==> 0 <= #[trigger] origin[k] < old_entries.len()
                    - self.entries@.len(),
                forall|k: int| 0 <= k < origin.len() ==> kept@[k] == old_entries[#[trigger] origin[k]],
                forall|a: int, b: int| 0 <= a < b < origin.len() ==> origin[a] < origin[b],
                forall|j: int|
                    0 <= j < old_entries.len() - self.entries@.len() && old_entries[j].1.last_request
                        > cutoff ==> exists|k: int| 0 <= k < origin.len() && #[trigger] origin[k] == j,
                forall|k: int| 0 <= k < kept@.len() ==> (#[trigger] kept@[k]).1.last_request > cutoff,
            decreases self.entries@.len(),
        {
            let ghost done = old_entries.len() - self.entries@.len();
            let item = self.entries.remove(0);
            assert(item == old_entries[done]);
            assert(self.entries@ =~= old_entries.skip(old_entries.len() - self.entries@.len()));
            let ghost old_origin = origin;
            if item.1.last_request > cutoff {
                kept.push(item);
                proof {
                    origin = origin.push(done);
                    assert(origin[origin.len() - 1] == done);
                }
            }
            proof {
                assert forall|j: int|
                    0 <= j < old_entries.len() - self.entries@.len() && old_entries[j].1.last_request
                        > cutoff implies exists|k: int| 0 <= k < origin.len() && #[trigger] origin[k] == j by {
                    if j < done {
                        let k = choose|k: int| 0 <= k < old_origin.len() && #[trigger] old_origin[k] == j;
                        assert(origin[k] == j);
                    } else {
                        assert(origin[origin.len() - 1] == j);
                    }
                }
            }
        }
        self.entries = kept;
        proof {
            let s = self.entries@;
            assert forall|a: int, b: int| 0 <= a < b < s.len() implies s[a].0 != s[b].0 by {
                assert(s[a] == old_entries[origin[a]]);
                assert(s[b] == old_entries[origin[b]]);
            }
            assert forall|a: int| 0 <= a < s.len() implies (#[trigger] s[a]).1.requests@.len()
                <= self.config.requests_per_minute by {
                assert(s[a] == old_entries[origin[a]]);
            }
            assert forall|ip: ClientIp| #[trigger] self.knows(ip) <==> (old(self).knows(ip)
                && old(self).record(ip).last_request > cutoff) by {
                if self.knows(ip) {
                    let k = choose|k: int| 0 <= k < s.len() && s[k].0 == ip;
                    assert(s[k] == old_entries[origin[k]]);
                    assert(old(self).knows(ip));
                    let j = choose|j: int| 0 <= j < old_entries.len() && old_entries[j].0 == ip;
                    assert(j == origin[k]);
                }
                if old(self).knows(ip) && old(self).record(ip).last_request > cutoff {
                    let j = choose|j: int| 0 <= j < old_entries.len() && old_entries[j].0 == ip;
                    let k = choose|k: int| 0 <= k < origin.len() && #[trigger] origin[k] == j;
                    assert(s[k] == old_entries[j]);
                }
            }
            assert forall|ip: ClientIp| #[trigger] self.knows(ip) implies self.record(ip) == old(
                self,
            ).record(ip) by {
                let k = choose|k: int| 0 <= k < s.len() && s[k].0 == ip;
                assert(s[k] == old_entries[origin[k]]);
                let j = choose|j: int| 0 <= j < old_entries.len() && old_entries[j].0 == ip;
                assert(j == origin[k]);
            }
        }
    }

    /// The limiter's clock: nanoseconds since it was made, counted from
    /// five minutes so that the last minute and the last five minutes
    /// always lie within the clock's range.
    fn clock(&self) -> (t: u64)
        ensures
            t >= STALE_AFTER,
    {
        STALE_AFTER.saturating_add(nanos_since(&self.origin))
    }

    /// Decides whether `ip` may make a request now (as
    /// `check_rate_limit_at` with the limiter's clock).
    pub fn check_rate_limit(&mut self, ip: ClientIp) -> (allowed: bool)
        requires
            old(self).wf(),
        ensures
            final(self).wf(),
            final(self).settings() == old(self).settings(),
            exists|now: u64| now >= STALE_AFTER && rate_checked(*old(self), *final(self), ip, now, allowed),
    {
        let now = self.clock();
        let allowed = self.check_rate_limit_at(ip, now);
        assert(rate_checked(*old(self), *self, ip, now, allowed));
        allowed
    }

    /// Forgets every client idle for five minutes or more (as
    /// `cleanup_stale_at` with the limiter's clock).
    pub fn cleanup_stale(&mut self)
        requires
            old(self).wf(),
        ensures
            final(self).wf(),
            final(self).settings() == old(self).settings(),
            exists|now: u64| now >= STALE_AFTER && stale_cleaned(*old(self), *final(self), now),
    {
        let now = self.clock();
        self.cleanup_stale_at(now);
        assert(stale_cleaned(*old(self), *self, now));
    }
}

// ---------------------------------------------------------------------
// Laws of the rate limiter
// ---------------------------------------------------------------------

/// A client never has more than `requests_per_minute` allowed requests in
/// any minute: what the limiter remembers of it within the minute that
/// ends at any time is within the limit.
pub proof fn law_window_bounded(l: &RateLimiter, ip: ClientIp, now: u64)
    requires
        l.wf(),
        now >= RATE_WINDOW,
    ensures
        after_cutoff(l.history(ip), (now - RATE_WINDOW) as u64).len() <= l.settings().requests_per_minute,
{
    lemma_after_cutoff_len(l.history(ip), (now - RATE_WINDOW) as u64);
    if l.knows(ip) {
        let i = choose|i: int| 0 <= i < l.entries@.len() && l.entries@[i].0 == ip;
        assert(l.entries@[i].1.requests@.len() <= l.config.requests_per_minute);
    }
}

/// A request that is allowed is remembered as the client's latest, within
/// the minute that ends with it.
pub proof fn law_allowed_is_remembered(history: Seq<u64>, now: u64)
    requires
        now >= RATE_WINDOW,
    ensures
        after_cutoff(after_cutoff(history, (now - RATE_WINDOW) as u64).push(now), (now - RATE_WINDOW) as u64)
            == after_cutoff(history, (now - RATE_WINDOW) as u64).push(now),
{
    let cutoff = (now - RATE_WINDOW) as u64;
    let kept = after_cutoff(history, cutoff);
    lemma_after_cutoff_idempotent(history, cutoff);
    assert(kept.push(now).drop_last() =~= kept);
    assert(kept.push(now).last() == now);
}

/// A client is refused exactly when its last minute is already full.
pub proof fn law_refused_when_full(history: Seq<u64>, rpm: u32, now: u64, allowed: bool)
    requires
        now >= RATE_WINDOW,
        allowed == (after_cutoff(history, (now - RATE_WINDOW) as u64).len() < rpm),
    ensures
        !allowed <==> after_cutoff(history, (now - RATE_WINDOW) as u64).len() >= rpm,
{
}

// ---------------------------------------------------------------------
// The limit over any sequence of checks
// ---------------------------------------------------------------------

/// The remembered requests of one client after checks at the times
/// `times`, in order, starting from none (each check as `rate_checked`
/// describes it).
pub open spec fn client_history(times: Seq<u64>, rpm: nat) -> Seq<u64>
    decreases times.len(),
{
    if times.len() == 0 {
        Seq::empty()
    } else {
        let now = times.last();
        let kept = after_cutoff(client_history(times.drop_last(), rpm), (now - RATE_WINDOW) as u64);
        if kept.len() < rpm {
            kept.push(now)
        } else {
            kept
        }
    }
}

/// Whether the check at position `i` of `times` is allowed.
pub open spec fn check_allowed(times: Seq<u64>, rpm: nat, i: int) -> bool {
    after_cutoff(client_history(times.take(i), rpm), (times[i] - RATE_WINDOW) as u64).len() < rpm
}

/// How many of the first `n` checks were allowed at a time in `(lo, hi]`.
pub open spec fn allowed_in(times: Seq<u64>, rpm: nat, n: int, lo: int, hi: int) -> nat
    decreases n,
{
    if n <= 0 {
        0
    } else {
        allowed_in(times, rpm, n - 1, lo, hi) + if check_allowed(times, rpm, n - 1) && lo < times[n - 1]
            <= hi {
            1nat
        } else {
            0nat
        }
    }
}

/// The times are in order and the clock has run a minute before the first.
pub open spec fn check_times(times: Seq<u64>) -> bool {
    &&& forall|i: int, j: int| 0 <= i <= j < times.len() ==> times[i] <= times[j]
    &&& forall|i: int| 0 <= i < times.len() ==> times[i] >= RATE_WINDOW
}

/// Filtering with a later cutoff keeps no more.
proof fn lemma_after_cutoff_mono(ts: Seq<u64>, c1: u64, c2: u64)
    requires
        c1 <= c2,
    ensures
        after_cutoff(ts, c2).len() <= after_cutoff(ts, c1).len(),
        after_cutoff(after_cutoff(ts, c1), c2) == after_cutoff(ts, c2),
    decreases ts.len(),
{
    if ts.len() > 0 {
        lemma_after_cutoff_mono(ts.drop_last(), c1, c2);
        let r1 = after_cutoff(ts.drop_last(), c1);
        if ts.last() > c1 {
            assert(r1.push(ts.last()).drop_last() =~= r1);
        }
    }
}

/// The counts of the first `n` checks depend on those checks alone.
proof fn lemma_allowed_in_prefix(times: Seq<u64>, rpm: nat, n: int, m: int, lo: int, hi: int)
    requires
        0 <= n <= m <= times.len(),
    ensures
        allowed_in(times, rpm, n, lo, hi) == allowed_in(times.take(m), rpm, n, lo, hi),
    decreases n,
{
    if n > 0 {
        lemma_allowed_in_prefix(times, rpm, n - 1, m, lo, hi);
        assert(times.take(m).take(n - 1) =~= times.take(n - 1));
        assert(times.take(m)[n - 1] == times[n - 1]);
    }
}

/// What a client remembers past `lo` is what it was allowed past `lo`,
/// for any `lo` within the minute before its last check.
proof fn lemma_history_counts(times: Seq<u64>, rpm: nat, lo: u64, hi: int)
    requires
        times.len() > 0,
        check_times(times),
        lo >= times.last() - RATE_WINDOW,
        hi >= times.last(),
    ensures
        after_cutoff(client_history(times, rpm), lo).len() == allowed_in(times, rpm, times.len() as int, lo as int, hi),
    decreases times.len(),
{
    let n = times.len() as int;
    let t = times.drop_last();
    let now = times.last();
    let c = (now - RATE_WINDOW) as u64;
    let h = client_history(t, rpm);
    let kept = after_cutoff(h, c);
    lemma_after_cutoff_mono(h, c, lo);
    assert(times.take(n - 1) =~= t);
    assert(times[n - 1] == now);
    if kept.len() < rpm {
        assert(kept.push(now).drop_last() =~= kept);
    }
    assert(after_cutoff(client_history(times, rpm), lo).len() == after_cutoff(h, lo).len() + if kept.len()
        < rpm && now > lo {
        1nat
    } else {
        0nat
    });
    lemma_allowed_in_prefix(times, rpm, n - 1, n - 1, lo as int, hi);
    if t.len() > 0 {
        assert(check_times(t)) by {
            assert forall|i: int, j: int| 0 <= i <= j < t.len() implies t[i] <= t[j] by {
                assert(t[i] == times[i] && t[j] == times[j]);
            }
            assert forall|i: int| 0 <= i < t.len() implies t[i] >= RATE_WINDOW by {
                assert(t[i] == times[i]);
            }
        }
        assert(t.last() == times[n - 2]);
        lemma_history_counts(t, rpm, lo, hi);
    } else {
        assert(h =~= Seq::<u64>::empty());
        assert(allowed_in(t, rpm, 0, lo as int, hi) == 0);
    }
}

/// Over any sequence of checks of one client, in order and after the
/// clock's first minute, no window of one minute holds more than
/// `requests_per_minute` allowed requests.  (Checks of other clients
/// leave this client's record as it was: see `rate_checked`.)
pub proof fn law_limit_over_any_sequence(times: Seq<u64>, rpm: nat, end: u64)
    requires
        check_times(times),
    ensures
        allowed_in(times, rpm, times.len() as int, end - RATE_WINDOW, end as int) <= rpm,
{
    lemma_limit_prefix(times, rpm, end, times.len() as int);
}

/// A check of a client whose remembered requests are those that the checks
/// at `times` left answers as `check_allowed` says of the next check, and
/// leaves what the checks at `times` followed by `now` leave: so a limiter
/// driven by `check_rate_limit_at` follows `client_history`, and
/// `law_limit_over_any_sequence` holds of it.
pub proof fn law_check_follows_history(
    before: RateLimiter,
    after: RateLimiter,
    ip: ClientIp,
    times: Seq<u64>,
    now: u64,
    allowed: bool,
)
    requires
        now >= RATE_WINDOW,
        before.history(ip) == client_history(times, before.settings().requests_per_minute as nat),
        rate_checked(before, after, ip, now, allowed),
    ensures
        allowed == check_allowed(
            times.push(now),
            before.settings().requests_per_minute as nat,
            times.len() as int,
        ),
        after.history(ip) == client_history(
            times.push(now),
            before.settings().requests_per_minute as nat,
        ),
{
    let all = times.push(now);
    assert(all.drop_last() =~= times);
    assert(all.take(times.len() as int) =~= times);
    assert(all[times.len() as int] == now);
}

proof fn lemma_limit_prefix(times: Seq<u64>, rpm: nat, end: u64, n: int)
    requires
        check_times(times),
        0 <= n <= times.len(),
    ensures
        allowed_in(times, rpm, n, end - RATE_WINDOW, end as int) <= rpm,
    decreases n,
{
    if n > 0 {
        lemma_limit_prefix(times, rpm, end, n - 1);
        let now = times[n - 1];
        let lo = end - RATE_WINDOW;
        if check_allowed(times, rpm, n - 1) && lo < now <= end {
            if n - 1 > 0 {
                let p = times.take(n - 1);
                assert(check_times(p)) by {
                    assert forall|i: int, j: int| 0 <= i <= j < p.len() implies p[i] <= p[j] by {
                        assert(p[i] == times[i] && p[j] == times[j]);
                    }
                    assert forall|i: int| 0 <= i < p.len() implies p[i] >= RATE_WINDOW by {
                        assert(p[i] == times[i]);
                    }
                }
                assert(p.last() == times[n - 2]);
                let lo_u = (end - RATE_WINDOW) as u64;
                lemma_history_counts(p, rpm, lo_u, end as int);
                lemma_allowed_in_prefix(times, rpm, n - 1, n - 1, lo, end as int);
                lemma_after_cutoff_mono(client_history(p, rpm), (now - RATE_WINDOW) as u64, lo_u);
            } else {
                assert(allowed_in(times, rpm, 0, lo, end as int) == 0);
            }
        }
    }
}

// ---------------------------------------------------------------------
// Security headers
// ---------------------------------------------------------------------

/// Security headers configuration.
#[derive(Debug)]
pub struct SecurityHeaders {
    pub content_security_policy: Option<String>,
    pub x_frame_options: Option<String>,
    pub x_content_type_options: bool,
    pub x_xss_protection: bool,
    pub strict_transport_security: Option<String>,
}

impl Default for SecurityHeaders {
    /// A same-origin content policy, no framing, no sniffing, XSS
    /// protection and one year of strict transport security.
    fn default() -> (h: Self)
        ensures
            h.content_security_policy matches Some(p) && p@
                == "default-src 'self'; script-src 'self' 'unsafe-inline'; style-src 'self' 'unsafe-inline'"@,
            h.x_frame_options matches Some(f) && f@ == "DENY"@,
            h.x_content_type_options,
            h.x_xss_protection,
            h.strict_transport_security matches Some(s) && s@
                == "max-age=31536000; includeSubDomains"@,
    {
        SecurityHeaders {
            content_security_policy: Some(
                owned(
                    "default-src 'self'; script-src 'self' 'unsafe-inline'; style-src 'self' 'unsafe-inline'",
                ),
            ),
            x_frame_options: Some(owned("DENY")),
            x_content_type_options: true,
            x_xss_protection: true,
            strict_transport_security: Some(owned("max-age=31536000; includeSubDomains")),
        }
    }
}

/// What the security middleware holds: the rate limiter and the headers
/// added to every answer.
#[derive(Debug)]
pub struct SecurityState {
    pub rate_limiter: RateLimiter,
    pub security_headers: SecurityHeaders,
}

impl SecurityState {
    /// A fresh limiter with `rate_limit_config`, and the default headers.
    pub fn new(rate_limit_config: RateLimitConfig) -> (s: Self)
        ensures
            s.rate_limiter.wf(),
            s.rate_limiter.settings() == rate_limit_config,
            forall|ip: ClientIp| !s.rate_limiter.knows(ip),
            s.security_headers.x_content_type_options,
            s.security_headers.x_xss_protection,
            s.security_headers.x_frame_options matches Some(f) && f@ == "DENY"@,
    {
        SecurityState {
            rate_limiter: RateLimiter::new(rate_limit_config),
            security_headers: SecurityHeaders::default(),
        }
    }
}

// ---------------------------------------------------------------------
// Input validation
// ---------------------------------------------------------------------

/// A character of a URL's host part: an ASCII letter or digit, `.` or `-`.
pub open spec fn host_char(c: char) -> bool {
    ('a' <= c && c <= 'z') || ('A' <= c && c <= 'Z') || ('0' <= c && c <= '9') || c == '.' || c
        == '-'
}

/// An ASCII letter.
pub open spec fn ascii_letter(c: char) -> bool {
    ('a' <= c && c <= 'z') || ('A' <= c && c <= 'Z')
}

/// An ASCII hexadecimal digit.
pub open spec fn hex_char(c: char) -> bool {
    ('a' <= c && c <= 'f') || ('A' <= c && c <= 'F') || ('0' <= c && c <= '9')
}

/// `s` matches `^https?://[a-zA-Z0-9.-]+\.[a-zA-Z]{2,}(/.*)?$`: a scheme,
/// a host whose last label has two or more letters, and an optional path
/// (without a line break) that starts with `/`.
pub open spec fn url_shape(s: Seq<char>) -> bool {
    exists|a: int, d: int, e: int|
        #![trigger s.take(a), s[d], s.skip(e)]
        {
            &&& (s.take(a) == "http://"@ || s.take(a) == "https://"@)
            &&& a < d
            &&& d + 2 < e
            &&& e <= s.len()
            &&& forall|i: int| a <= i < d ==> host_char(#[trigger] s[i])
            &&& s[d] == '.'
            &&& forall|i: int| d < i < e ==> ascii_letter(#[trigger] s[i])
            &&& (e == s.len() || (s[e] == '/' && forall|i: int| e < i < s.len() ==> #[trigger] s[i] != '\n'))
        }
}

/// `s` matches the UUID shape `8-4-4-4-12` of hexadecimal digits.
pub open spec fn uuid_shape(s: Seq<char>) -> bool {
    &&& s.len() == 36
    &&& forall|i: int|
        0 <= i < 36 ==> if i == 8 || i == 13 || i == 18 || i == 23 {
            #[trigger] s[i] == '-'
        } else {
            hex_char(s[i])
        }
}

/// The `regex` crate's match of the URL pattern.
#[verifier::external_body]
fn url_regex_matches(url: &str) -> (b: bool)
    ensures
        b == url_shape(url@),
{
    regex::Regex::new(r"^https?://[a-zA-Z0-9.-]+\.[a-zA-Z]{2,}(/.*)?$").unwrap().is_match(url)
}

/// The `regex` crate's match of the session-id pattern.
#[verifier::external_body]
fn session_regex_matches(session_id: &str) -> (b: bool)
    ensures
        b == uuid_shape(session_id@),
{
    regex::Regex::new(
        r"^[a-fA-F0-9]{8}-[a-fA-F0-9]{4}-[a-fA-F0-9]{4}-[a-fA-F0-9]{4}-[a-fA-F0-9]{12}$",
    ).unwrap().is_match(session_id)
}

/// A well-formed http(s) URL of at most 2048 bytes.
pub fn is_valid_url(url: &str) -> (b: bool)
    ensures
        b == (url_shape(url@) && url.len() <= 2048),
{
    url_regex_matches(url) && url.len() <= 2048
}

/// A session id in UUID form.
pub fn is_valid_session_id(session_id: &str) -> (b: bool)
    ensures
        b == uuid_shape(session_id@),
{
    session_regex_matches(session_id)
}

/// A punctuation character that sanitized text keeps.
pub open spec fn kept_punctuation(c: char) -> bool {
    c == '.' || c == ',' || c == '!' || c == '?' || c == '-' || c == '_' || c == '(' || c == ')'
        || c == '[' || c == ']' || c == '{' || c == '}'
}

/// A character that sanitized text keeps.
pub open spec fn kept_char(c: char) -> bool {
    unicode_alphanumeric(c) || unicode_whitespace(c) || kept_punctuation(c)
}

/// The characters of `s` that sanitization keeps.
pub open spec fn kept_chars(s: Seq<char>) -> Seq<char>
    decreases s.len(),
{
    if s.len() == 0 {
        Seq::empty()
    } else if kept_char(s.last()) {
        kept_chars(s.drop_last()).push(s.last())
    } else {
        kept_chars(s.drop_last())
    }
}

/// The first `n` characters of `s`, or all of `s` when it is shorter.
pub open spec fn take_at_most(s: Seq<char>, n: nat) -> Seq<char> {
    if n < s.len() {
        s.take(n as int)
    } else {
        s
    }
}

/// Keeping characters of a longer string keeps at least as many.
proof fn lemma_kept_chars_prefix(s: Seq<char>, i: int)
    requires
        0 <= i <= s.len(),
    ensures
        kept_chars(s.take(i)).len() <= kept_chars(s).len(),
        kept_chars(s).take(kept_chars(s.take(i)).len() as int) == kept_chars(s.take(i)),
    decreases s.len() - i,
{
    if i < s.len() {
        lemma_kept_chars_prefix(s, i + 1);
        assert(s.take(i + 1).drop_last() =~= s.take(i));
        let a = kept_chars(s.take(i));
        let b = kept_chars(s.take(i + 1));
        let c = kept_chars(s);
        if kept_char(s[i]) {
            assert(b == a.push(s[i]));
            assert(c.take(b.len() as int).take(a.len() as int) =~= c.take(a.len() as int));
            assert(b.take(a.len() as int) =~= a);
        }
    } else {
        assert(s.take(i) =~= s);
        assert(kept_chars(s).take(kept_chars(s).len() as int) =~= kept_chars(s));
    }
}

/// Whether `c` is one of the punctuation characters sanitization keeps.
fn is_kept_punctuation(c: char) -> (b: bool)
    ensures
        b == kept_punctuation(c),
{
    c == '.' || c == ',' || c == '!' || c == '?' || c == '-' || c == '_' || c == '(' || c == ')'
        || c == '[' || c == ']' || c == '{' || c == '}'
}

/// Keeps only letters, digits, whitespace and `.,!?-_()[]{}`, and at most
/// `max_length` of them.
pub fn sanitize_string(input: &str, max_length: usize) -> (r: String)
    ensures
        r@ == take_at_most(kept_chars(input@), max_length as nat),
{
    let v = chars_of(input);
    let mut out: Vec<char> = Vec::new();
    let mut i: usize = 0;
    while i < v.len() && out.len() < max_length
        invariant
            i <= v@.len(),
            out@ == kept_chars(v@.take(i as int)),
            out@.len() <= max_length,
        decreases v@.len() - i,
    {
        let c = v[i];
        assert(v@.take(i + 1).drop_last() =~= v@.take(i as int));
        if is_alphanumeric(c) || is_whitespace(c) || is_kept_punctuation(c) {
            out.push(c);
        }
        i = i + 1;
    }
    proof {
        lemma_kept_chars_prefix(v@, i as int);
        if out@.len() < max_length {
            assert(v@.take(v@.len() as int) =~= v@);
        } else {
            assert(out@.len() == max_length);
        }
    }
    string_from_chars(out.as_slice())
}

/// Every character that sanitization keeps is one it keeps.
proof fn lemma_kept_chars_kept(s: Seq<char>)
    ensures
        forall|i: int| 0 <= i < kept_chars(s).len() ==> kept_char(#[trigger] kept_chars(s)[i]),
    decreases s.len(),
{
    if s.len() > 0 {
        lemma_kept_chars_kept(s.drop_last());
        let a = kept_chars(s.drop_last());
        if kept_char(s.last()) {
            assert forall|i: int| 0 <= i < a.push(s.last()).len() implies kept_char(
                #[trigger] a.push(s.last())[i],
            ) by {
                if i < a.len() {
                    assert(a.push(s.last())[i] == a[i]);
                }
            }
        }
    }
}

/// Text made only of kept characters is kept whole.
proof fn lemma_kept_chars_fixed(t: Seq<char>)
    requires
        forall|i: int| 0 <= i < t.len() ==> kept_char(#[trigger] t[i]),
    ensures
        kept_chars(t) == t,
    decreases t.len(),
{
    if t.len() > 0 {
        lemma_kept_chars_fixed(t.drop_last());
        assert(t.drop_last().push(t.last()) =~= t);
    }
}

/// Sanitizing text that was sanitized with the same limit changes
/// nothing.
pub proof fn law_sanitize_idempotent(s: Seq<char>, n: nat)
    ensures
        take_at_most(kept_chars(take_at_most(kept_chars(s), n)), n) == take_at_most(kept_chars(s), n),
{
    let k = kept_chars(s);
    lemma_kept_chars_kept(s);
    let t = take_at_most(k, n);
    assert forall|i: int| 0 <= i < t.len() implies kept_char(#[trigger] t[i]) by {
        assert(t[i] == k[i]);
    }
    lemma_kept_chars_fixed(t);
}

/// A relative path without `..` of at most 1024 bytes.
pub fn is_safe_path(path: &str) -> (b: bool)
    ensures
        b == (!contains_seq(path@, ".."@) && !has_prefix(path@, "/"@) && path.len() <= 1024),
{
    let v = chars_of(path);
    let dots = chars_of("..");
    let slash = chars_of("/");
    !seq_contains(v.as_slice(), dots.as_slice()) && !seq_has_prefix(v.as_slice(), slash.as_slice())
        && path.len() <= 1024
}

// ---------------------------------------------------------------------
// Client address
// ---------------------------------------------------------------------

/// The texts a request's client address is read from, in the order they
/// are tried: the first entry of `X-Forwarded-For` (trimmed), then
/// `X-Real-IP`.  Each header is given as its text, when it has a text
/// value.  The first text that parses as an address is the client's; when
/// none does, the client is 127.0.0.1.
pub fn client_ip_candidates(forwarded_for: Option<&str>, real_ip: Option<&str>) -> (c: Vec<String>)
    ensures
        c@.len() == (if forwarded_for is Some { 1int } else { 0int }) + (if real_ip is Some {
            1int
        } else {
            0int
        }),
        forwarded_for is Some ==> c@[0]@ == trim(split_char(forwarded_for->0@, ',')[0]),
        real_ip is Some ==> c@.last()@ == real_ip->0@,
{
    let mut c: Vec<String> = Vec::new();
    if let Some(forwarded) = forwarded_for {
        let v = chars_of(forwarded);
        let pieces = split_on(v.as_slice(), ',');
        proof {
            crate::strings::lemma_split_char_nonempty(v@, ',');
        }
        let first = trim_chars(pieces[0].as_slice());
        c.push(string_from_chars(first.as_slice()));
    }
    if let Some(real_text) = real_ip {
        c.push(owned(real_text));
    }
    c
}

// ---------------------------------------------------------------------
// Request validation
// ---------------------------------------------------------------------

/// A problem with one field of a request.
#[derive(Debug)]
pub struct ValidationError {
    pub field: String,
    pub message: String,
}

/// The repository types a request may name.
pub open spec fn known_repo_type(t: Seq<char>) -> bool {
    t == "github"@ || t == "gitlab"@ || t == "local"@ || t == "auto"@
}

/// The problem with the repository field, if any: empty, an `http…`
/// string that is not a valid URL, or another string that is not a safe
/// path.
pub open spec fn repository_problem(repository: Seq<char>, bytes: nat) -> Option<Seq<char>> {
    if repository.len() == 0 {
        Some("Repository cannot be empty"@)
    } else if has_prefix(repository, "http"@) && !(url_shape(repository) && bytes <= 2048) {
        Some("Invalid repository URL format"@)
    } else if !has_prefix(repository, "http"@) && !(!contains_seq(repository, ".."@) && !has_prefix(
        repository,
        "/"@,
    ) && bytes <= 1024) {
        Some("Invalid repository path"@)
    } else {
        None
    }
}

/// Validates a repository request: the repository must be a URL or a safe
/// path, and a named repository type must be one of github, gitlab, local
/// and auto.  All problems found are reported, repository first.
pub fn validate_repository_request(repository: &str, repo_type: &Option<String>) -> (r: Result<
    (),
    Vec<ValidationError>,
>)
    ensures
        ({
            let rp = repository_problem(repository@, repository.len() as nat);
            let tp = repo_type is Some && !known_repo_type(repo_type->0@);
            match r {
                Ok(_) => rp is None && !tp,
                Err(errors) => {
                    &&& (rp is Some || tp)
                    &&& errors@.len() == (if rp is Some { 1int } else { 0int }) + (if tp { 1int } else { 0int })
                    &&& rp is Some ==> errors@[0].field@ == "repository"@ && errors@[0].message@
                        == rp->0
                    &&& tp ==> errors@.last().field@ == "repo_type"@ && errors@.last().message@
                        == "Invalid repo_type. Must be one of: github, gitlab, local, auto"@
                },
            }
        }),
{
    let mut errors: Vec<ValidationError> = Vec::new();
    let is_http = crate::strings::str_has_prefix(repository, "http");
    if repository.is_empty() {
        errors.push(
            ValidationError {
                field: owned("repository"),
                message: owned("Repository cannot be empty"),
            },
        );
    } else if is_http && !is_valid_url(repository) {
        errors.push(
            ValidationError {
                field: owned("repository"),
                message: owned("Invalid repository URL format"),
            },
        );
    } else if !is_http && !is_safe_path(repository) {
        errors.push(
            ValidationError { field: owned("repository"), message: owned("Invalid repository path") },
        );
    }
    if let Some(t) = repo_type {
        let ts = t.as_str();
        if !(crate::strings::str_eq(ts, "github") || crate::strings::str_eq(ts, "gitlab")
            || crate::strings::str_eq(ts, "local") || crate::strings::str_eq(ts, "auto")) {
            errors.push(
                ValidationError {
                    field: owned("repo_type"),
                    message: owned("Invalid repo_type. Must be one of: github, gitlab, local, auto"),
                },
            );
        }
    }
    if errors.len() == 0 {
        Ok(())
    } else {
        Err(errors)
    }
}

/// The repository types a request may name are exactly `github`,
/// `gitlab`, `local` and `auto`: with one of them, a request is refused
/// only for its repository, and with any other it is refused for its type
/// (see `validate_repository_request`).
pub proof fn law_listed_repo_types_accepted(t: Seq<char>)
    ensures
        known_repo_type(t) <==> (t == "github"@ || t == "gitlab"@ || t == "local"@ || t == "auto"@),
{
}

/// Text made only of letters, digits, whitespace and the characters
/// `. , ! ? - _ ( ) [ ] { }`, no longer than the limit, comes out of
/// `sanitize_string` unchanged.
pub proof fn law_sanitize_keeps_allowed_text(s: Seq<char>, n: nat)
    requires
        s.len() <= n,
        forall|i: int|
            0 <= i < s.len() ==> {
                let c = #[trigger] s[i];
                ||| unicode_alphanumeric(c)
                ||| unicode_whitespace(c)
                ||| c == '.' || c == ',' || c == '!' || c == '?' || c == '-' || c == '_'
                ||| c == '(' || c == ')' || c == '[' || c == ']' || c == '{' || c == '}'
            },
    ensures
        take_at_most(kept_chars(s), n) == s,
{
    assert forall|i: int| 0 <= i < s.len() implies kept_char(#[trigger] s[i]) by {}
    lemma_kept_chars_fixed(s);
}

/// A character that is neither a letter, a digit, whitespace nor one of
/// `. , ! ? - _ ( ) [ ] { }` is dropped: sanitizing it alone gives the
/// empty text, and sanitizing one of the others gives it back.
pub proof fn law_sanitize_drops_other_chars(c: char, n: nat)
    requires
        n >= 1,
    ensures
        ({
            let allowed = unicode_alphanumeric(c) || unicode_whitespace(c) || c == '.' || c == ','
                || c == '!' || c == '?' || c == '-' || c == '_' || c == '(' || c == ')' || c == '['
                || c == ']' || c == '{' || c == '}';
            take_at_most(kept_chars(seq![c]), n) == if allowed {
                seq![c]
            } else {
                Seq::<char>::empty()
            }
        }),
{
    let s = seq![c];
    assert(s.drop_last() =~= Seq::<char>::empty());
    assert(kept_chars(s.drop_last()) =~= Seq::<char>::empty());
    assert(s.last() == c);
    if kept_char(c) {
        assert(kept_chars(s) =~= seq![c]);
    } else {
        assert(kept_chars(s) =~= Seq::<char>::empty());
    }
}

} // verus!
