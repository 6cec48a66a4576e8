use vstd::prelude::*;
use vstd::arithmetic::div_mod::{lemma_fundamental_div_mod, lemma_fundamental_div_mod_converse, lemma_mod_bound};
use crate::probe::OutcomeKind;

verus! {

/// Handles per lookup request.
pub const BATCH_SIZE: usize = 10;

/// Workers cycling through the handle set.
pub const WORKERS: usize = 7500;

/// Attempts per batch before it waits for its next turn.
pub const MAX_ATTEMPTS: u32 = 30;

/// Lookups in flight at once, over all workers.
pub const ADMISSION_PERMITS: usize = 150000;

/// Pause of a worker between two batches, in milliseconds.
pub const PACING_MILLIS: u64 = 550;

/// Bound on one lookup attempt, in seconds.
pub const ATTEMPT_TIMEOUT_SECS: u64 = 5;

/// Most outbound clients built from the endpoint list.
pub const CLIENT_CAP: usize = 10000;

/// Request timeout of each outbound client, in seconds.
pub const CLIENT_TIMEOUT_SECS: u64 = 3;

/// Rounds that `workers` workers taking `batch_size` handles each need to
/// pass over `total` handles once: the ceiling of `total / (workers * batch_size)`.
pub open spec fn rounds_spec(total: int, workers: int, batch_size: int) -> int {
    (total + workers * batch_size - 1) / (workers * batch_size)
}

/// Index of the first handle that worker `worker` takes at round `round`.
pub open spec fn start_spec(worker: int, round: int, workers: int, batch_size: int, total: int) -> int {
    (worker * batch_size + round * workers * batch_size) % total
}

/// Whether the batch of `batch_size` handles from `start`, wrapping around a
/// list of `total`, holds index `j`.
pub open spec fn in_batch(j: int, start: int, batch_size: int, total: int) -> bool {
    exists|d: int| 0 <= d < batch_size && #[trigger] ((start + d) % total) == j
}

/// Rounds needed to pass over `total` handles once.
pub fn rounds_needed(total: usize, workers: usize, batch_size: usize) -> (r: usize)
    requires
        workers > 0,
        batch_size > 0,
        workers * batch_size + total <= usize::MAX,
    ensures
        r == rounds_spec(total as int, workers as int, batch_size as int),
{
    let span = workers * batch_size;
    assert(span >= 1) by (nonlinear_arith)
        requires
            span == workers * batch_size,
            workers > 0,
            batch_size > 0,
    ;
    (total + span - 1) / span
}

proof fn lemma_last_round_fits(round: int, total: int, span: int)
    requires
        span > 0,
        total > 0,
        0 <= round < (total + span - 1) / span,
    ensures
        round * span < total,
{
    let x = total + span - 1;
    lemma_fundamental_div_mod(x, span);
    lemma_mod_bound(x, span);
    let q = x / span;
    assert(round * span < total) by (nonlinear_arith)
        requires
            x == span * q + x % span,
            0 <= x % span,
            x == total + span - 1,
            round + 1 <= q,
            span > 0,
    ;
}

/// Index of the first handle of worker `worker` at round `round`.
pub fn batch_start(worker: usize, round: usize, workers: usize, batch_size: usize, total: usize) -> (r: usize)
    requires
        worker < workers,
        batch_size > 0,
        total > 0,
        round < rounds_spec(total as int, workers as int, batch_size as int),
        workers * batch_size + total <= usize::MAX,
    ensures
        r == start_spec(worker as int, round as int, workers as int, batch_size as int, total as int),
        r < total,
{
    let span = workers * batch_size;
    proof {
        assert(span > 0) by (nonlinear_arith)
            requires
                span == workers * batch_size,
                worker < workers,
                batch_size > 0,
        ;
        lemma_last_round_fits(round as int, total as int, span as int);
        assert(worker * batch_size + round * span < total + span) by (nonlinear_arith)
            requires
                worker < workers,
                span == workers * batch_size,
                round * span < total,
        ;
        assert(round * span == round * workers * batch_size) by (nonlinear_arith)
            requires
                span == workers * batch_size,
        ;
    }
    (worker * batch_size + round * span) % total
}

/// The `batch_size` handles from index `start` on, wrapping around the list.
pub fn batch_names(usernames: &Vec<String>, start: usize, batch_size: usize) -> (r: Vec<String>)
    requires
        usernames.len() > 0,
        start + batch_size <= usize::MAX,
    ensures
        r.len() == batch_size,
        forall|d: int| 0 <= d < batch_size ==> #[trigger] r@[d]@ == usernames@[(start + d) % (usernames.len() as int)]@,
{
    let mut r: Vec<String> = Vec::new();
    let mut d: usize = 0;
    while d < batch_size
        invariant
            d <= batch_size,
            usernames.len() > 0,
            start + batch_size <= usize::MAX,
            r.len() == d,
            forall|m: int| 0 <= m < d ==> #[trigger] r@[m]@ == usernames@[(start + m) % (usernames.len() as int)]@,
        decreases batch_size - d,
    {
        r.push(usernames[(start + d) % usernames.len()].clone());
        d += 1;
    }
    r
}

/// The round after `round`, back to the first after the last.
pub fn next_round(round: usize, rounds: usize) -> (r: usize)
    requires
        round < rounds,
    ensures
        r == (round + 1) % (rounds as int),
        r < rounds,
{
    if round + 1 == rounds {
        proof {
            lemma_fundamental_div_mod_converse(round + 1, rounds as int, 1, 0);
        }
        0
    } else {
        proof {
            lemma_fundamental_div_mod_converse(round + 1, rounds as int, 0, round + 1);
        }
        round + 1
    }
}

/// Every handle lies in at least one batch within one pass: for each index
/// `j` below `total` there is a worker and a round below the rounds needed
/// whose batch holds `j`.
pub proof fn lemma_pass_covers_all(total: int, workers: int, batch_size: int, j: int)
    requires
        total > 0,
        workers > 0,
        batch_size > 0,
        0 <= j < total,
    ensures
        exists|i: int, k: int|
            0 <= i < workers && 0 <= k < rounds_spec(total, workers, batch_size) && #[trigger] in_batch(
                j,
                start_spec(i, k, workers, batch_size, total),
                batch_size,
                total,
            ),
{
    let span = workers * batch_size;
    assert(span > 0) by (nonlinear_arith)
        requires
            span == workers * batch_size,
            workers > 0,
            batch_size > 0,
    ;
    lemma_fundamental_div_mod(j, span);
    lemma_mod_bound(j, span);
    let k = j / span;
    let rem = j % span;
    lemma_fundamental_div_mod(rem, batch_size);
    lemma_mod_bound(rem, batch_size);
    let i = rem / batch_size;
    let d = rem % batch_size;
    assert(0 <= k) by (nonlinear_arith)
        requires
            j == span * k + rem,
            rem < span,
            j >= 0,
            span > 0,
    ;
    assert(0 <= i < workers) by (nonlinear_arith)
        requires
            rem == batch_size * i + d,
            0 <= d < batch_size,
            0 <= rem < span,
            span == workers * batch_size,
            batch_size > 0,
    ;
    assert(i * batch_size + k * workers * batch_size == j - d) by (nonlinear_arith)
        requires
            j == span * k + rem,
            rem == batch_size * i + d,
            span == workers * batch_size,
    ;
    lemma_fundamental_div_mod_converse(j - d, total, 0, j - d);
    lemma_fundamental_div_mod_converse(j, total, 0, j);
    assert(start_spec(i, k, workers, batch_size, total) == j - d);
    assert((j - d + d) % total == j);
    assert(in_batch(j, j - d, batch_size, total));
    let x = total + span - 1;
    lemma_fundamental_div_mod(x, span);
    lemma_mod_bound(x, span);
    assert(k < x / span) by (nonlinear_arith)
        requires
            j == span * k + rem,
            0 <= rem,
            j <= total - 1,
            x == total + span - 1,
            x == span * (x / span) + x % span,
            x % span < span,
            span > 0,
    ;
}

/// What a worker does after an attempt.
#[derive(Clone, Copy, Debug, PartialEq, Eq, Structural)]
pub enum NextStep {
    /// Merge the resolved results; the batch is done.
    Merge,
    /// Try again with another client.
    Retry,
    /// Give the batch up until its next turn; counts as a batch error.
    Exhausted,
}

/// The outcome counter that an attempt bumps.
#[derive(Clone, Copy, Debug, PartialEq, Eq, Structural)]
pub enum Counter {
    Success,
    RateLimited,
    Forbidden,
}

pub open spec fn after_spec(attempt: u32, kind: OutcomeKind) -> (NextStep, Option<Counter>) {
    let step = if kind == OutcomeKind::Resolved {
        NextStep::Merge
    } else if attempt < MAX_ATTEMPTS {
        NextStep::Retry
    } else {
        NextStep::Exhausted
    };
    let counted = match kind {
        OutcomeKind::Resolved => Some(Counter::Success),
        OutcomeKind::RateLimited => Some(Counter::RateLimited),
        OutcomeKind::Forbidden => Some(Counter::Forbidden),
        _ => None,
    };
    (step, counted)
}

/// Decides what follows attempt number `attempt` (counted from one) whose
/// outcome was of kind `kind`, and which counter it bumps. Only a resolved
/// outcome is merged; any other is retried until the attempts run out.
pub fn after_attempt(attempt: u32, kind: OutcomeKind) -> (r: (NextStep, Option<Counter>))
    requires
        1 <= attempt <= MAX_ATTEMPTS,
    ensures
        r == after_spec(attempt, kind),
        r.0 == NextStep::Retry ==> attempt < MAX_ATTEMPTS,
        r.0 == NextStep::Merge <==> kind == OutcomeKind::Resolved,
{
    let step = match kind {
        OutcomeKind::Resolved => NextStep::Merge,
        _ => if attempt < MAX_ATTEMPTS {
            NextStep::Retry
        } else {
            NextStep::Exhausted
        },
    };
    let counted = match kind {
        OutcomeKind::Resolved => Some(Counter::Success),
        OutcomeKind::RateLimited => Some(Counter::RateLimited),
        OutcomeKind::Forbidden => Some(Counter::Forbidden),
        _ => None,
    };
    (step, counted)
}

} // verus!
