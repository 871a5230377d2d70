//! Usage extraction and the accounting sink.

use crate::json::{get, integer_of, lookup, tree_of, JsonTree};
use serde_json::Value;
use vstd::prelude::*;
use vstd::seq_lib::{commutative_foldl, lemma_fold_left_permutation};
use vstd::wrapping::i64_specs::wrapping_add;

verus! {

/// The usage object of a response: under `x_groq.usage` in a streamed
/// chunk, under `usage` in a complete response.
pub open spec fn usage_of(response: JsonTree, is_streaming: bool) -> Option<JsonTree> {
    if is_streaming {
        match lookup(response, "x_groq"@) {
            Some(meta) => lookup(meta, "usage"@),
            None => None,
        }
    } else {
        lookup(response, "usage"@)
    }
}

/// `n` brought into the range from zero to `i32::MAX`.
pub open spec fn clamp_tokens(n: int) -> int {
    if n < 0 {
        0
    } else if n > i32::MAX {
        i32::MAX as int
    } else {
        n
    }
}

/// The tokens that a response bills: the integer under `total_tokens` of
/// its usage object, clamped; zero where there is no usage object, no such
/// member, or the member is no integer that `serde_json` holds.
pub open spec fn billed_tokens(response: JsonTree, is_streaming: bool) -> int {
    match usage_of(response, is_streaming) {
        Some(usage) => match lookup(usage, "total_tokens"@) {
            Some(count) => match integer_of(count) {
                Some(n) => if i64::MIN <= n <= u64::MAX {
                    clamp_tokens(n)
                } else {
                    0
                },
                None => 0,
            },
            None => 0,
        },
        None => 0,
    }
}

/// Reads the number of billed tokens out of a response.
pub fn extract_tokens(response: &Value, is_streaming: bool) -> (tokens: i32)
    ensures
        tokens == billed_tokens(tree_of(*response), is_streaming),
        0 <= tokens <= i32::MAX,
{
    let usage = if is_streaming {
        match get(response, "x_groq") {
            Some(meta) => get(meta, "usage"),
            None => None,
        }
    } else {
        get(response, "usage")
    };
    let count = match usage {
        Some(data) => get(data, "total_tokens"),
        None => None,
    };
    match count {
        Some(number) => match number.as_i64() {
            Some(raw) => if raw < 0 {
                0
            } else if raw > i32::MAX as i64 {
                i32::MAX
            } else {
                raw as i32
            },
            None => match number.as_u64() {
                Some(_) => i32::MAX,
                None => 0,
            },
        },
        None => 0,
    }
}

/// Where the accounting of one request stands.
#[derive(Clone, Copy, Debug, PartialEq, Eq, Structural)]
pub enum LogPhase {
    /// Nothing was done yet.
    Pending,
    /// A connection to the store was asked for.
    Connecting,
    /// The row was handed to the store.
    Inserting,
    /// Nothing is left to do.
    Finished,
}

/// What happened since the last step.
#[derive(Clone, Copy, Debug, PartialEq, Eq, Structural)]
pub enum StoreEvent {
    /// A completed request is to be recorded.
    Requested,
    /// The pool gave a connection.
    Connected,
    /// The pool gave none.
    ConnectFailed,
    /// The store took the row.
    Inserted,
    /// The store refused the row.
    InsertFailed,
}

/// The two ways in which accounting fails. Neither ever reaches the client.
#[derive(Clone, Copy, Debug, PartialEq, Eq, Structural)]
pub enum AccountingFailure {
    /// No connection could be had from the pool.
    Pool,
    /// The row could not be inserted.
    Insert,
}

/// What the caller is to do next.
#[derive(Clone, Copy, Debug, PartialEq, Eq, Structural)]
pub enum LogAction {
    /// Ask the pool for a connection, and report `Connected` or
    /// `ConnectFailed`.
    Connect,
    /// Insert the row of request, response, client address and token count,
    /// and report `Inserted` or `InsertFailed`.
    Insert,
    /// Note the failure in the service's own log, and stop. There is no
    /// second attempt.
    Report(AccountingFailure),
    /// Stop: the request is accounted for, or there is no store.
    Finish,
    /// The event does not belong to the phase: do nothing.
    Ignore,
}

/// The accounting sink as a value: whether a store is configured, and the
/// running token counter.
pub struct MetricsView {
    pub db: bool,
    pub tokens: i64,
}

/// The accounting sink. It knows whether a store is configured and keeps the
/// running count of tokens of the requests that were logged.
#[derive(Debug)]
pub struct MetricsState {
    db: bool,
    tokens: i64,
}

impl View for MetricsState {
    type V = MetricsView;

    closed spec fn view(&self) -> MetricsView {
        MetricsView { db: self.db, tokens: self.tokens }
    }
}

/// The next phase and the action that follow an event.
pub open spec fn log_step(db: bool, phase: LogPhase, event: StoreEvent) -> (LogPhase, LogAction) {
    match (phase, event) {
        (LogPhase::Pending, StoreEvent::Requested) => if db {
            (LogPhase::Connecting, LogAction::Connect)
        } else {
            (LogPhase::Finished, LogAction::Finish)
        },
        (LogPhase::Connecting, StoreEvent::Connected) => (LogPhase::Inserting, LogAction::Insert),
        (LogPhase::Connecting, StoreEvent::ConnectFailed) => (
            LogPhase::Finished,
            LogAction::Report(AccountingFailure::Pool),
        ),
        (LogPhase::Inserting, StoreEvent::Inserted) => (LogPhase::Finished, LogAction::Finish),
        (LogPhase::Inserting, StoreEvent::InsertFailed) => (
            LogPhase::Finished,
            LogAction::Report(AccountingFailure::Insert),
        ),
        _ => (phase, LogAction::Ignore),
    }
}

/// What a request with this token count adds to the counter once its row is
/// in the store.
pub open spec fn counted_tokens(tokens: i32) -> int {
    if tokens > 0 {
        tokens as int
    } else {
        0
    }
}

/// What one step adds to the counter: the token count where the step is
/// the success of the insert, nothing at any other step.
pub open spec fn counted(phase: LogPhase, event: StoreEvent, tokens: i32) -> int {
    if phase == LogPhase::Inserting && event == StoreEvent::Inserted {
        counted_tokens(tokens)
    } else {
        0
    }
}

impl MetricsState {
    /// A sink with the counter at zero. `db` says whether a pool of
    /// connections to the store could be made; without one, accounting does
    /// nothing.
    pub fn init(db: bool) -> (state: MetricsState)
        ensures
            state@ == (MetricsView { db, tokens: 0 }),
    {
        MetricsState { db, tokens: 0 }
    }

    /// Whether a store is configured.
    pub fn has_store(&self) -> (db: bool)
        ensures
            db == self@.db,
    {
        self.db
    }

    /// The running token counter.
    pub fn tokens(&self) -> (tokens: i64)
        ensures
            tokens == self@.tokens,
    {
        self.tokens
    }

    /// Adds `n` to the running token counter, wrapping around at the end of
    /// `i64`.
    #[inline]
    pub fn inc_tokens(&mut self, n: i64)
        ensures
            final(self)@.db == old(self)@.db,
            final(self)@.tokens == wrapping_add(old(self)@.tokens, n),
    {
        self.tokens = self.tokens.wrapping_add(n);
    }

    /// One step of recording a completed request. The caller does what the
    /// returned action says and comes back with what happened. The counter
    /// grows only when the insert has succeeded, and then by a positive
    /// token count; no failure is handed back to the caller's caller.
    pub fn log_request(&mut self, phase: LogPhase, event: StoreEvent, tokens: i32) -> (step: (
        LogPhase,
        LogAction,
    ))
        ensures
            step == log_step(old(self)@.db, phase, event),
            final(self)@.db == old(self)@.db,
            final(self)@.tokens == wrapping_add(
                old(self)@.tokens,
                counted(phase, event, tokens) as i64,
            ),
    {
        match (phase, event) {
            (LogPhase::Pending, StoreEvent::Requested) => if self.db {
                (LogPhase::Connecting, LogAction::Connect)
            } else {
                (LogPhase::Finished, LogAction::Finish)
            },
            (LogPhase::Connecting, StoreEvent::Connected) => (
                LogPhase::Inserting,
                LogAction::Insert,
            ),
            (LogPhase::Connecting, StoreEvent::ConnectFailed) => (
                LogPhase::Finished,
                LogAction::Report(AccountingFailure::Pool),
            ),
            (LogPhase::Inserting, StoreEvent::Inserted) => {
                if tokens > 0 {
                    self.inc_tokens(tokens as i64);
                }
                (LogPhase::Finished, LogAction::Finish)
            },
            (LogPhase::Inserting, StoreEvent::InsertFailed) => (
                LogPhase::Finished,
                LogAction::Report(AccountingFailure::Insert),
            ),
            _ => (phase, LogAction::Ignore),
        }
    }
}

/// One call of `log_request`, by its arguments.
pub struct LogStep {
    pub phase: LogPhase,
    pub event: StoreEvent,
    pub tokens: i32,
}

/// The counter after these steps were taken in this order.
pub open spec fn counter_after(start: i64, steps: Seq<LogStep>) -> i64 {
    steps.fold_left(
        start,
        |counter: i64, step: LogStep|
            wrapping_add(counter, counted(step.phase, step.event, step.tokens) as i64),
    )
}

/// What these steps count together.
pub open spec fn counted_sum(steps: Seq<LogStep>) -> int {
    steps.fold_left(
        0int,
        |sum: int, step: LogStep| sum + counted(step.phase, step.event, step.tokens),
    )
}

/// The steps of a request that is logged with success.
pub open spec fn logged(tokens: i32) -> Seq<LogStep> {
    seq![
        LogStep { phase: LogPhase::Pending, event: StoreEvent::Requested, tokens },
        LogStep { phase: LogPhase::Connecting, event: StoreEvent::Connected, tokens },
        LogStep { phase: LogPhase::Inserting, event: StoreEvent::Inserted, tokens },
    ]
}

/// The steps of requests with these token counts, each logged with success,
/// one request after the other.
pub open spec fn all_logged(counts: Seq<i32>) -> Seq<LogStep>
    decreases counts.len(),
{
    if counts.len() == 0 {
        seq![]
    } else {
        all_logged(counts.drop_last()) + logged(counts.last())
    }
}

/// The sum of token counts.
pub open spec fn sum_of(counts: Seq<i32>) -> int
    decreases counts.len(),
{
    if counts.len() == 0 {
        0
    } else {
        sum_of(counts.drop_last()) + counts.last()
    }
}

/// A step that is not the success of an insert leaves the counter where it
/// was: so it is with no store, with no connection, and with a refused row.
pub proof fn lemma_failure_leaves_the_counter(
    before: i64,
    phase: LogPhase,
    event: StoreEvent,
    tokens: i32,
)
    requires
        !(phase == LogPhase::Inserting && event == StoreEvent::Inserted),
    ensures
        wrapping_add(before, counted(phase, event, tokens) as i64) == before,
{
}

/// Without a store the first step ends the accounting, and no step asks
/// for a connection.
pub proof fn lemma_no_store_no_write(phase: LogPhase, event: StoreEvent)
    ensures
        log_step(false, LogPhase::Pending, StoreEvent::Requested) == (
            LogPhase::Finished,
            LogAction::Finish,
        ),
        log_step(false, phase, event).1 != LogAction::Connect,
{
}

/// Steps never count less than nothing, and more steps never count less.
pub proof fn lemma_counted_sum_grows(steps: Seq<LogStep>)
    ensures
        0 <= counted_sum(steps),
        steps.len() > 0 ==> counted_sum(steps.drop_last()) <= counted_sum(steps),
    decreases steps.len(),
{
    if steps.len() > 0 {
        lemma_counted_sum_grows(steps.drop_last());
    }
}

/// As long as the counter stays within `i64`, it stands at its start plus
/// what the steps counted.
pub proof fn lemma_counter_adds_what_is_counted(start: i64, steps: Seq<LogStep>)
    requires
        start + counted_sum(steps) <= i64::MAX,
    ensures
        counter_after(start, steps) == start + counted_sum(steps),
    decreases steps.len(),
{
    if steps.len() > 0 {
        lemma_counted_sum_grows(steps);
        lemma_counted_sum_grows(steps.drop_last());
        lemma_counter_adds_what_is_counted(start, steps.drop_last());
    }
}

/// The order in which steps are taken, of one request or of many at a
/// time, does not matter to the counter.
pub proof fn lemma_order_is_irrelevant(start: i64, first: Seq<LogStep>, second: Seq<LogStep>)
    requires
        first.to_multiset() == second.to_multiset(),
    ensures
        counter_after(start, first) == counter_after(start, second),
{
    let add = |counter: i64, step: LogStep|
        wrapping_add(counter, counted(step.phase, step.event, step.tokens) as i64);
    assert(commutative_foldl(add));
    lemma_fold_left_permutation(first, second, add, start);
}

/// What steps count together is the sum of what each part counts.
pub proof fn lemma_counted_sum_of_parts(head: Seq<LogStep>, tail: Seq<LogStep>)
    ensures
        counted_sum(head + tail) == counted_sum(head) + counted_sum(tail),
    decreases tail.len(),
{
    if tail.len() == 0 {
        assert(head + tail == head);
    } else {
        assert((head + tail).drop_last() == head + tail.drop_last());
        lemma_counted_sum_of_parts(head, tail.drop_last());
    }
}

/// Requests with non-negative token counts, each logged with success, count
/// the sum of their token counts.
pub proof fn lemma_logged_requests_count_their_tokens(counts: Seq<i32>)
    requires
        forall|i: int| 0 <= i < counts.len() ==> counts[i] >= 0,
    ensures
        counted_sum(all_logged(counts)) == sum_of(counts),
    decreases counts.len(),
{
    if counts.len() > 0 {
        let run = logged(counts.last());
        lemma_logged_requests_count_their_tokens(counts.drop_last());
        lemma_counted_sum_of_parts(all_logged(counts.drop_last()), run);
        assert(counted_sum(run) == counts.last()) by {
            assert(run.drop_last().drop_last().drop_last() == Seq::<LogStep>::empty());
            reveal_with_fuel(Seq::fold_left, 4);
        }
    }
}

/// After requests with non-negative token counts were logged with success,
/// the counter stands at its start plus the sum of the counts, as long as
/// that is within `i64`.
pub proof fn lemma_counter_is_sum_of_tokens(start: i64, counts: Seq<i32>)
    requires
        forall|i: int| 0 <= i < counts.len() ==> counts[i] >= 0,
        start + sum_of(counts) <= i64::MAX,
    ensures
        counter_after(start, all_logged(counts)) == start + sum_of(counts),
{
    lemma_logged_requests_count_their_tokens(counts);
    lemma_counter_adds_what_is_counted(start, all_logged(counts));
}

} // verus!
