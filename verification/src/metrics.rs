//! Server metrics: counters, recent durations, and counts by HTTP status
//! and by error type.
//!
//! Counters wrap around at 2^64 as atomic counters do.  Durations are
//! kept in milliseconds, in windows of the most recent measurements (1000
//! for requests, queries and database calls, 100 for indexing and wiki
//! generation).  Averages over a window are the window's total divided by
//! its length; that division, in floating point, is the caller's.

use vstd::prelude::*;
use crate::keyed::KeyedList;
use crate::strings::owned;
use vstd::wrapping::u64_specs::{wrapping_add, wrapping_sub};

verus! {

broadcast use vstd::string::group_string_axioms;

/// How many recent HTTP, chat and database durations are kept.
pub const LONG_WINDOW: usize = 1000;

/// How many recent indexing and wiki generation durations are kept.
pub const SHORT_WINDOW: usize = 100;

/// The memory usage the server reports: 100 MiB.
pub const REPORTED_MEMORY_BYTES: u64 = 104_857_600;

/// The memory usage the server reports (a fixed figure: 100 MiB).
pub fn get_memory_usage() -> (n: u64)
    ensures
        n == REPORTED_MEMORY_BYTES,
{
    REPORTED_MEMORY_BYTES
}

// ---------------------------------------------------------------------
// Windows of recent durations
// ---------------------------------------------------------------------

/// `s` with `d` appended, dropping the oldest entry when that makes it
/// longer than `limit`.
pub open spec fn bounded_push(s: Seq<u64>, d: u64, limit: nat) -> Seq<u64> {
    let t = s.push(d);
    if t.len() > limit {
        t.drop_first()
    } else {
        t
    }
}

/// The sum of `s`.
pub open spec fn total(s: Seq<u64>) -> nat
    decreases s.len(),
{
    if s.len() == 0 {
        0
    } else {
        total(s.drop_last()) + s.last() as nat
    }
}

/// Appends `d` to `window`, dropping the oldest entry beyond `limit`.
pub fn push_bounded(window: &mut Vec<u64>, d: u64, limit: usize)
    requires
        limit >= 1,
        old(window)@.len() <= limit,
    ensures
        final(window)@ == bounded_push(old(window)@, d, limit as nat),
        final(window)@.len() <= limit,
{
    window.push(d);
    if window.len() > limit {
        let _ = window.remove(0);
        assert(window@ =~= old(window)@.push(d).drop_first());
    }
}

/// The total of the durations in `window`.
pub fn window_total(window: &[u64]) -> (t: u128)
    ensures
        t == total(window@),
{
    let mut t: u128 = 0;
    let mut i: usize = 0;
    assert(window@.take(0) =~= Seq::<u64>::empty());
    while i < window.len()
        invariant
            i <= window@.len(),
            t == total(window@.take(i as int)),
            t <= i * (u64::MAX as int),
        decreases window@.len() - i,
    {
        assert(window@.take(i + 1).drop_last() =~= window@.take(i as int));
        assert(window@.take(i + 1).last() == window@[i as int]);
        assert(t + window@[i as int] <= (i + 1) * (u64::MAX as int)) by (nonlinear_arith)
            requires
                t <= i * (u64::MAX as int),
                window@[i as int] <= u64::MAX,
        ;
        assert((i + 1) * (u64::MAX as int) < u128::MAX) by (nonlinear_arith)
            requires
                i < usize::MAX,
        ;
        t = t + window[i] as u128;
        i = i + 1;
    }
    assert(window@.take(i as int) =~= window@);
    t
}

// ---------------------------------------------------------------------
// Counts by status code
// ---------------------------------------------------------------------

/// No status code occurs twice.
pub open spec fn codes_unique(s: Seq<(u16, u64)>) -> bool {
    forall|i: int, j: int| 0 <= i < j < s.len() ==> s[i].0 != s[j].0
}

/// The count recorded for `code` (0 when none is).
pub open spec fn status_count(s: Seq<(u16, u64)>, code: u16) -> u64
    decreases s.len(),
{
    if s.len() == 0 {
        0
    } else if s.last().0 == code {
        s.last().1
    } else {
        status_count(s.drop_last(), code)
    }
}

/// Whether `code` has a count.
pub open spec fn has_code(s: Seq<(u16, u64)>, code: u16) -> bool {
    exists|i: int| 0 <= i < s.len() && (#[trigger] s[i]).0 == code
}

proof fn lemma_status_count_at(s: Seq<(u16, u64)>, i: int)
    requires
        codes_unique(s),
        0 <= i < s.len(),
    ensures
        status_count(s, s[i].0) == s[i].1,
    decreases s.len(),
{
    if i < s.len() - 1 {
        assert(s.last() == s[s.len() - 1]);
        lemma_status_count_at(s.drop_last(), i);
    }
}

proof fn lemma_status_count_absent(s: Seq<(u16, u64)>, code: u16)
    requires
        !has_code(s, code),
    ensures
        status_count(s, code) == 0,
    decreases s.len(),
{
    if s.len() > 0 {
        assert(s.last() == s[s.len() - 1]);
        assert(!has_code(s.drop_last(), code)) by {
            if has_code(s.drop_last(), code) {
                let i = choose|i: int| 0 <= i < s.drop_last().len() && (#[trigger] s.drop_last()[i]).0 == code;
                assert(s[i] == s.drop_last()[i]);
            }
        }
        lemma_status_count_absent(s.drop_last(), code);
    }
}

proof fn lemma_status_count_update(s: Seq<(u16, u64)>, i: int, v: u64, other: u16)
    requires
        codes_unique(s),
        0 <= i < s.len(),
        other != s[i].0,
    ensures
        status_count(s.update(i, (s[i].0, v)), other) == status_count(s, other),
    decreases s.len(),
{
    let t = s.update(i, (s[i].0, v));
    if i == s.len() - 1 {
        assert(t.drop_last() =~= s.drop_last());
    } else {
        assert(t.drop_last() =~= s.drop_last().update(i, (s[i].0, v)));
        lemma_status_count_update(s.drop_last(), i, v, other);
    }
}

/// Adds one to the count of `code`.
fn bump_status(counts: &mut Vec<(u16, u64)>, code: u16)
    requires
        codes_unique(old(counts)@),
    ensures
        codes_unique(final(counts)@),
        status_count(final(counts)@, code) == wrapping_add(status_count(old(counts)@, code), 1),
        forall|c: u16| c != code ==> status_count(final(counts)@, c) == status_count(old(counts)@, c),
        forall|c: u16| has_code(final(counts)@, c) <==> (has_code(old(counts)@, c) || c == code),
{
    let mut i: usize = 0;
    while i < counts.len()
        invariant
            i <= counts@.len(),
            counts@ == old(counts)@,
            codes_unique(old(counts)@),
            forall|j: int| 0 <= j < i ==> counts@[j].0 != code,
        decreases counts@.len() - i,
    {
        if counts[i].0 == code {
            let ghost before = counts@;
            let n = counts[i].1.wrapping_add(1);
            counts.set(i, (code, n));
            proof {
                lemma_status_count_at(before, i as int);
                assert(counts@ == before.update(i as int, (before[i as int].0, n)));
                assert(codes_unique(counts@)) by {
                    assert forall|a: int, b: int| 0 <= a < b < counts@.len() implies counts@[a].0
                        != counts@[b].0 by {
                        assert(counts@[a].0 == before[a].0);
                        assert(counts@[b].0 == before[b].0);
                    }
                }
                lemma_status_count_at(counts@, i as int);
                assert forall|c: u16| c != code implies status_count(counts@, c) == status_count(
                    before,
                    c,
                ) by {
                    lemma_status_count_update(before, i as int, n, c);
                }
                assert forall|c: u16| has_code(counts@, c) <==> (has_code(before, c) || c == code) by {
                    if has_code(before, c) {
                        let j = choose|j: int| 0 <= j < before.len() && (#[trigger] before[j]).0 == c;
                        assert(counts@[j].0 == c);
                    }
                    if has_code(counts@, c) {
                        let j = choose|j: int| 0 <= j < counts@.len() && (#[trigger] counts@[j]).0 == c;
                        assert(before[j].0 == c);
                    }
                    if c == code {
                        assert(counts@[i as int].0 == c);
                    }
                }
            }
            return;
        }
        i = i + 1;
    }
    let ghost before = counts@;
    proof {
        lemma_status_count_absent(before, code);
    }
    counts.push((code, 1));
    proof {
        assert(counts@.drop_last() =~= before);
        assert forall|c: u16| has_code(counts@, c) <==> (has_code(before, c) || c == code) by {
            if has_code(before, c) {
                let j = choose|j: int| 0 <= j < before.len() && (#[trigger] before[j]).0 == c;
                assert(counts@[j].0 == c);
            }
            if has_code(counts@, c) {
                let j = choose|j: int| 0 <= j < counts@.len() && (#[trigger] counts@[j]).0 == c;
                if j < before.len() {
                    assert(before[j].0 == c);
                }
            }
            if c == code {
                assert(counts@[counts@.len() - 1].0 == c);
            }
        }
    }
}

// ---------------------------------------------------------------------
// The collector
// ---------------------------------------------------------------------

/// WebSocket counters.
#[derive(Clone, Copy, Debug, PartialEq, Eq, Structural)]
pub struct WebSocketMetrics {
    pub connections_total: u64,
    pub connections_active: u64,
    pub messages_sent: u64,
    pub messages_received: u64,
}

/// Error counters: in all, and by type.
#[derive(Debug)]
pub struct ErrorMetrics {
    pub total: u64,
    pub by_type: Vec<(String, u64)>,
}

/// The server's metrics.
#[derive(Debug)]
pub struct MetricsCollector {
    pub http_requests_total: u64,
    pub http_requests_by_status: Vec<(u16, u64)>,
    pub http_request_duration: Vec<u64>,
    pub websocket_connections_total: u64,
    pub websocket_connections_active: u64,
    pub websocket_messages_sent: u64,
    pub websocket_messages_received: u64,
    pub repositories_initialized: u64,
    pub repositories_indexed: u64,
    pub indexing_duration: Vec<u64>,
    pub chat_queries_total: u64,
    pub chat_response_duration: Vec<u64>,
    pub chat_tokens_processed: u64,
    pub wiki_generations_total: u64,
    pub wiki_generation_duration: Vec<u64>,
    pub wiki_pages_generated: u64,
    pub database_queries_total: u64,
    pub database_query_duration: Vec<u64>,
    pub database_connections_active: u64,
    pub memory_usage_bytes: u64,
    pub uptime_seconds: u64,
    pub errors_total: u64,
    pub errors_by_type: KeyedList<u64>,
}

/// Which window of durations.
#[derive(Debug)]
pub enum DurationWindow {
    Http,
    Indexing,
    Chat,
    Wiki,
    Database,
}

impl MetricsCollector {
    /// The windows are within their bounds and the counts by status and by
    /// error type have each key once.
    pub closed spec fn wf(&self) -> bool {
        &&& self.http_request_duration@.len() <= LONG_WINDOW
        &&& self.indexing_duration@.len() <= SHORT_WINDOW
        &&& self.chat_response_duration@.len() <= LONG_WINDOW
        &&& self.wiki_generation_duration@.len() <= SHORT_WINDOW
        &&& self.database_query_duration@.len() <= LONG_WINDOW
        &&& codes_unique(self.http_requests_by_status@)
        &&& self.errors_by_type.wf()
    }

    /// The recent durations of a window, oldest first.
    pub closed spec fn durations(&self, w: DurationWindow) -> Seq<u64> {
        match w {
            DurationWindow::Http => self.http_request_duration@,
            DurationWindow::Indexing => self.indexing_duration@,
            DurationWindow::Chat => self.chat_response_duration@,
            DurationWindow::Wiki => self.wiki_generation_duration@,
            DurationWindow::Database => self.database_query_duration@,
        }
    }

    /// How many requests were answered with `code`.
    pub closed spec fn requests_with_status(&self, code: u16) -> u64 {
        status_count(self.http_requests_by_status@, code)
    }

    /// Whether some request was answered with `code`.
    pub closed spec fn status_seen(&self, code: u16) -> bool {
        has_code(self.http_requests_by_status@, code)
    }

    /// The error counts by type.
    pub closed spec fn errors_by_type_view(&self) -> Map<Seq<char>, u64> {
        self.errors_by_type@
    }

    /// A collector with every count zero and every window empty.
    pub fn new() -> (m: Self)
        ensures
            m.wf(),
            m.http_requests_total == 0,
            m.websocket_connections_total == 0,
            m.websocket_connections_active == 0,
            m.websocket_messages_sent == 0,
            m.websocket_messages_received == 0,
            m.repositories_initialized == 0,
            m.repositories_indexed == 0,
            m.chat_queries_total == 0,
            m.chat_tokens_processed == 0,
            m.wiki_generations_total == 0,
            m.wiki_pages_generated == 0,
            m.database_queries_total == 0,
            m.database_connections_active == 0,
            m.memory_usage_bytes == 0,
            m.uptime_seconds == 0,
            m.errors_total == 0,
            forall|w: DurationWindow| #[trigger] m.durations(w).len() == 0,
            forall|c: u16| !#[trigger] m.status_seen(c),
            m.errors_by_type_view() == Map::<Seq<char>, u64>::empty(),
    {
        let m = MetricsCollector {
            http_requests_total: 0,
            http_requests_by_status: Vec::new(),
            http_request_duration: Vec::new(),
            websocket_connections_total: 0,
            websocket_connections_active: 0,
            websocket_messages_sent: 0,
            websocket_messages_received: 0,
            repositories_initialized: 0,
            repositories_indexed: 0,
            indexing_duration: Vec::new(),
            chat_queries_total: 0,
            chat_response_duration: Vec::new(),
            chat_tokens_processed: 0,
            wiki_generations_total: 0,
            wiki_generation_duration: Vec::new(),
            wiki_pages_generated: 0,
            database_queries_total: 0,
            database_query_duration: Vec::new(),
            database_connections_active: 0,
            memory_usage_bytes: 0,
            uptime_seconds: 0,
            errors_total: 0,
            errors_by_type: KeyedList::new(),
        };
        m
    }

    /// Records an HTTP request answered with `status_code` in
    /// `duration_ms` milliseconds.
    pub fn record_http_request(&mut self, status_code: u16, duration_ms: u64)
        requires
            old(self).wf(),
        ensures
            final(self).wf(),
            final(self).http_requests_total == wrapping_add(old(self).http_requests_total, 1),
            final(self).requests_with_status(status_code) == wrapping_add(
                old(self).requests_with_status(status_code),
                1,
            ),
            forall|c: u16|
                c != status_code ==> #[trigger] final(self).requests_with_status(c) == old(
                    self,
                ).requests_with_status(c),
            forall|c: u16|
                #[trigger] final(self).status_seen(c) <==> (old(self).status_seen(c) || c
                    == status_code),
            final(self).durations(DurationWindow::Http) == bounded_push(
                old(self).durations(DurationWindow::Http),
                duration_ms,
                LONG_WINDOW as nat,
            ),
            forall|w: DurationWindow|
                !(w is Http) ==> #[trigger] final(self).durations(w) == old(self).durations(w),
    {
        self.http_requests_total = self.http_requests_total.wrapping_add(1);
        bump_status(&mut self.http_requests_by_status, status_code);
        push_bounded(&mut self.http_request_duration, duration_ms, LONG_WINDOW);
    }

    /// Records a WebSocket connection.
    pub fn record_websocket_connection(&mut self)
        requires
            old(self).wf(),
        ensures
            final(self).wf(),
            final(self).websocket_connections_total == wrapping_add(
                old(self).websocket_connections_total,
                1,
            ),
            final(self).websocket_connections_active == wrapping_add(
                old(self).websocket_connections_active,
                1,
            ),
            final(self).websocket_messages_sent == old(self).websocket_messages_sent,
            final(self).websocket_messages_received == old(self).websocket_messages_received,
    {
        self.websocket_connections_total = self.websocket_connections_total.wrapping_add(1);
        self.websocket_connections_active = self.websocket_connections_active.wrapping_add(1);
    }

    /// Records a WebSocket disconnection.
    pub fn record_websocket_disconnection(&mut self)
        requires
            old(self).wf(),
        ensures
            final(self).wf(),
            final(self).websocket_connections_active == wrapping_sub(
                old(self).websocket_connections_active,
                1,
            ),
            final(self).websocket_connections_total == old(self).websocket_connections_total,
            final(self).websocket_messages_sent == old(self).websocket_messages_sent,
            final(self).websocket_messages_received == old(self).websocket_messages_received,
    {
        self.websocket_connections_active = self.websocket_connections_active.wrapping_sub(1);
    }

    /// Records a WebSocket message, sent or received.
    pub fn record_websocket_message(&mut self, sent: bool)
        requires
            old(self).wf(),
        ensures
            final(self).wf(),
            final(self).websocket_messages_sent == if sent {
                wrapping_add(old(self).websocket_messages_sent, 1)
            } else {
                old(self).websocket_messages_sent
            },
            final(self).websocket_messages_received == if sent {
                old(self).websocket_messages_received
            } else {
                wrapping_add(old(self).websocket_messages_received, 1)
            },
            final(self).websocket_connections_total == old(self).websocket_connections_total,
            final(self).websocket_connections_active == old(self).websocket_connections_active,
    {
        if sent {
            self.websocket_messages_sent = self.websocket_messages_sent.wrapping_add(1);
        } else {
            self.websocket_messages_received = self.websocket_messages_received.wrapping_add(1);
        }
    }

    /// Records a repository initialization.
    pub fn record_repository_initialization(&mut self)
        requires
            old(self).wf(),
        ensures
            final(self).wf(),
            final(self).repositories_initialized == wrapping_add(
                old(self).repositories_initialized,
                1,
            ),
            final(self).repositories_indexed == old(self).repositories_indexed,
    {
        self.repositories_initialized = self.repositories_initialized.wrapping_add(1);
    }

    /// Records a repository indexing that took `duration_ms` milliseconds.
    pub fn record_repository_indexing(&mut self, duration_ms: u64)
        requires
            old(self).wf(),
        ensures
            final(self).wf(),
            final(self).repositories_indexed == wrapping_add(old(self).repositories_indexed, 1),
            final(self).repositories_initialized == old(self).repositories_initialized,
            final(self).durations(DurationWindow::Indexing) == bounded_push(
                old(self).durations(DurationWindow::Indexing),
                duration_ms,
                SHORT_WINDOW as nat,
            ),
            forall|w: DurationWindow|
                !(w is Indexing) ==> #[trigger] final(self).durations(w) == old(self).durations(w),
    {
        self.repositories_indexed = self.repositories_indexed.wrapping_add(1);
        push_bounded(&mut self.indexing_duration, duration_ms, SHORT_WINDOW);
    }

    /// Records a chat query answered in `duration_ms` milliseconds over
    /// `tokens_processed` tokens.
    pub fn record_chat_query(&mut self, duration_ms: u64, tokens_processed: u64)
        requires
            old(self).wf(),
        ensures
            final(self).wf(),
            final(self).chat_queries_total == wrapping_add(old(self).chat_queries_total, 1),
            final(self).chat_tokens_processed == wrapping_add(
                old(self).chat_tokens_processed,
                tokens_processed,
            ),
            final(self).durations(DurationWindow::Chat) == bounded_push(
                old(self).durations(DurationWindow::Chat),
                duration_ms,
                LONG_WINDOW as nat,
            ),
            forall|w: DurationWindow|
                !(w is Chat) ==> #[trigger] final(self).durations(w) == old(self).durations(w),
    {
        self.chat_queries_total = self.chat_queries_total.wrapping_add(1);
        self.chat_tokens_processed = self.chat_tokens_processed.wrapping_add(tokens_processed);
        push_bounded(&mut self.chat_response_duration, duration_ms, LONG_WINDOW);
    }

    /// Records a wiki generation of `pages_generated` pages that took
    /// `duration_ms` milliseconds.
    pub fn record_wiki_generation(&mut self, duration_ms: u64, pages_generated: u64)
        requires
            old(self).wf(),
        ensures
            final(self).wf(),
            final(self).wiki_generations_total == wrapping_add(old(self).wiki_generations_total, 1),
            final(self).wiki_pages_generated == wrapping_add(
                old(self).wiki_pages_generated,
                pages_generated,
            ),
            final(self).durations(DurationWindow::Wiki) == bounded_push(
                old(self).durations(DurationWindow::Wiki),
                duration_ms,
                SHORT_WINDOW as nat,
            ),
            forall|w: DurationWindow|
                !(w is Wiki) ==> #[trigger] final(self).durations(w) == old(self).durations(w),
    {
        self.wiki_generations_total = self.wiki_generations_total.wrapping_add(1);
        self.wiki_pages_generated = self.wiki_pages_generated.wrapping_add(pages_generated);
        push_bounded(&mut self.wiki_generation_duration, duration_ms, SHORT_WINDOW);
    }

    /// Records a database query that took `duration_ms` milliseconds.
    pub fn record_database_query(&mut self, duration_ms: u64)
        requires
            old(self).wf(),
        ensures
            final(self).wf(),
            final(self).database_queries_total == wrapping_add(old(self).database_queries_total, 1),
            final(self).durations(DurationWindow::Database) == bounded_push(
                old(self).durations(DurationWindow::Database),
                duration_ms,
                LONG_WINDOW as nat,
            ),
            forall|w: DurationWindow|
                !(w is Database) ==> #[trigger] final(self).durations(w) == old(self).durations(w),
    {
        self.database_queries_total = self.database_queries_total.wrapping_add(1);
        push_bounded(&mut self.database_query_duration, duration_ms, LONG_WINDOW);
    }

    /// Records an error of type `error_type`.
    pub fn record_error(&mut self, error_type: &str)
        requires
            old(self).wf(),
        ensures
            final(self).wf(),
            final(self).errors_total == wrapping_add(old(self).errors_total, 1),
            final(self).errors_by_type_view() == old(self).errors_by_type_view().insert(
                error_type@,
                wrapping_add(
                    if old(self).errors_by_type_view().contains_key(error_type@) {
                        old(self).errors_by_type_view()[error_type@]
                    } else {
                        0
                    },
                    1,
                ),
            ),
    {
        self.errors_total = self.errors_total.wrapping_add(1);
        let current = match self.errors_by_type.get(error_type) {
            Some(n) => *n,
            None => 0,
        };
        self.errors_by_type.insert(owned(error_type), current.wrapping_add(1));
    }

    /// Records the process's uptime and memory usage.
    pub fn record_system_usage(&mut self, uptime_seconds: u64, memory_usage_bytes: u64)
        requires
            old(self).wf(),
        ensures
            final(self).wf(),
            final(self).uptime_seconds == uptime_seconds,
            final(self).memory_usage_bytes == memory_usage_bytes,
    {
        self.uptime_seconds = uptime_seconds;
        self.memory_usage_bytes = memory_usage_bytes;
    }

    /// The recent durations of a window, oldest first.
    pub fn recent_durations(&self, w: DurationWindow) -> (d: &[u64])
        ensures
            d@ == self.durations(w),
    {
        match w {
            DurationWindow::Http => self.http_request_duration.as_slice(),
            DurationWindow::Indexing => self.indexing_duration.as_slice(),
            DurationWindow::Chat => self.chat_response_duration.as_slice(),
            DurationWindow::Wiki => self.wiki_generation_duration.as_slice(),
            DurationWindow::Database => self.database_query_duration.as_slice(),
        }
    }

    /// The total and the number of the recent durations of a window (the
    /// average is the total over the number, 0 for an empty window).
    pub fn duration_summary(&self, w: DurationWindow) -> (r: (u128, usize))
        ensures
            r.0 == total(self.durations(w)),
            r.1 == self.durations(w).len(),
    {
        let d = self.recent_durations(w);
        (window_total(d), d.len())
    }

    /// How many requests were answered with `code`.
    pub fn status_count(&self, code: u16) -> (n: u64)
        requires
            self.wf(),
        ensures
            n == self.requests_with_status(code),
    {
        let mut i: usize = 0;
        while i < self.http_requests_by_status.len()
            invariant
                codes_unique(self.http_requests_by_status@),
                i <= self.http_requests_by_status@.len(),
                forall|j: int| 0 <= j < i ==> self.http_requests_by_status@[j].0 != code,
            decreases self.http_requests_by_status@.len() - i,
        {
            if self.http_requests_by_status[i].0 == code {
                proof {
                    lemma_status_count_at(self.http_requests_by_status@, i as int);
                }
                return self.http_requests_by_status[i].1;
            }
            i = i + 1;
        }
        proof {
            lemma_status_count_absent(self.http_requests_by_status@, code);
        }
        0
    }

    /// The counts by status code, each code once.
    pub fn requests_by_status(&self) -> (v: Vec<(u16, u64)>)
        requires
            self.wf(),
        ensures
            codes_unique(v@),
            forall|c: u16| #[trigger] has_code(v@, c) <==> self.status_seen(c),
            forall|c: u16| #[trigger] status_count(v@, c) == self.requests_with_status(c),
    {
        let mut v: Vec<(u16, u64)> = Vec::new();
        let mut i: usize = 0;
        while i < self.http_requests_by_status.len()
            invariant
                i <= self.http_requests_by_status@.len(),
                v@ == self.http_requests_by_status@.take(i as int),
            decreases self.http_requests_by_status@.len() - i,
        {
            v.push(self.http_requests_by_status[i]);
            assert(self.http_requests_by_status@.take(i + 1) =~= self.http_requests_by_status@.take(
                i as int,
            ).push(self.http_requests_by_status@[i as int]));
            i = i + 1;
        }
        assert(v@ =~= self.http_requests_by_status@);
        v
    }

    /// The WebSocket counters.
    pub fn websocket_metrics(&self) -> (m: WebSocketMetrics)
        ensures
            m.connections_total == self.websocket_connections_total,
            m.connections_active == self.websocket_connections_active,
            m.messages_sent == self.websocket_messages_sent,
            m.messages_received == self.websocket_messages_received,
    {
        WebSocketMetrics {
            connections_total: self.websocket_connections_total,
            connections_active: self.websocket_connections_active,
            messages_sent: self.websocket_messages_sent,
            messages_received: self.websocket_messages_received,
        }
    }

    /// The error counters.
    pub fn error_metrics(&self) -> (m: ErrorMetrics)
        requires
            self.wf(),
        ensures
            m.total == self.errors_total,
            m.by_type@.len() == self.errors_by_type_view().len(),
            forall|i: int|
                0 <= i < m.by_type@.len() ==> {
                    &&& self.errors_by_type_view().contains_key((#[trigger] m.by_type@[i]).0@)
                    &&& self.errors_by_type_view()[m.by_type@[i].0@] == m.by_type@[i].1
                },
            forall|i: int, j: int| 0 <= i < j < m.by_type@.len() ==> m.by_type@[i].0@ != m.by_type@[j].0@,
            forall|k: Seq<char>|
                #[trigger] self.errors_by_type_view().contains_key(k) ==> exists|i: int|
                    0 <= i < m.by_type@.len() && (#[trigger] m.by_type@[i]).0@ == k,
    {
        proof {
            self.errors_by_type.lemma_items();
        }
        let n = self.errors_by_type.len();
        let mut by_type: Vec<(String, u64)> = Vec::new();
        let mut i: usize = 0;
        while i < n
            invariant
                self.errors_by_type.wf(),
                n == self.errors_by_type.items().len(),
                i <= n,
                by_type@.len() == i,
                forall|j: int|
                    0 <= j < i ==> (#[trigger] by_type@[j]).0@ == self.errors_by_type.items()[j].0@
                        && by_type@[j].1 == self.errors_by_type.items()[j].1,
            decreases n - i,
        {
            let item = self.errors_by_type.item_at(i);
            by_type.push((item.0.clone(), item.1));
            i = i + 1;
        }
        proof {
            self.errors_by_type.lemma_items();
            assert forall|k: Seq<char>| #[trigger] self.errors_by_type_view().contains_key(k) implies exists|i: int|
                0 <= i < by_type@.len() && (#[trigger] by_type@[i]).0@ == k by {
                let j = choose|j: int|
                    0 <= j < self.errors_by_type.items().len() && (#[trigger] self.errors_by_type.items()[j]).0@ == k;
                assert(by_type@[j].0@ == k);
            }
            assert forall|i: int|
                0 <= i < by_type@.len() implies {
                    &&& self.errors_by_type_view().contains_key((#[trigger] by_type@[i]).0@)
                    &&& self.errors_by_type_view()[by_type@[i].0@] == by_type@[i].1
                } by {
                let it = self.errors_by_type.items()[i];
                assert(self.errors_by_type@[it.0@] == it.1);
            }
        }
        ErrorMetrics { total: self.errors_total, by_type }
    }
}

// ---------------------------------------------------------------------
// Laws
// ---------------------------------------------------------------------

/// A window never grows beyond its limit, and its newest entry is the
/// last one recorded.
pub proof fn law_window_bounded(s: Seq<u64>, d: u64, limit: nat)
    requires
        limit >= 1,
        s.len() <= limit,
    ensures
        bounded_push(s, d, limit).len() <= limit,
        bounded_push(s, d, limit).last() == d,
        bounded_push(s, d, limit).len() == if s.len() < limit {
            s.len() + 1
        } else {
            limit
        },
{
}

/// A connection followed by a disconnection leaves the number of active
/// connections as it was.
pub proof fn law_connect_disconnect(active: u64)
    ensures
        wrapping_sub(wrapping_add(active, 1), 1) == active,
{
}

} // verus!
