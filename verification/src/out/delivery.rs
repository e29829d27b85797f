//! Batched delivery to a remote sink: the plan of batches and the decisions
//! between one attempt to send and the next.

use crate::text::{decimal, decimal_text, join2, join3, join4};
use vstd::prelude::*;

verus! {

/// Attempts made for one batch before delivery is given up.
pub const RETRIES: u32 = 3;

/// The wait before the second attempt, in milliseconds. The wait before each
/// later attempt is longer by as much again.
pub const RETRY_BASE_MS: u64 = 300;

/// Seconds allowed for a connection to the sink to be made.
pub const CONNECT_TIMEOUT: u64 = 5;

/// Seconds allowed for one request when a whole payload is posted at once.
pub const READ_TIMEOUT: u64 = 60;

/// Seconds allowed for one request when a batch is posted.
pub const BATCH_TIMEOUT: u64 = 30;

/// Where the batch that starts at `start` ends.
pub open spec fn end_of_batch(start: int, total: int, size: int) -> int {
    if start + size < total {
        start + size
    } else {
        total
    }
}

/// The batches of `total` records from `start` on, each as the positions of
/// its first record and of the one after its last.
pub open spec fn plan(start: int, total: int, size: int) -> Seq<(int, int)>
    decreases total - start,
{
    if size <= 0 || start >= total {
        Seq::empty()
    } else {
        let end = end_of_batch(start, total, size);
        seq![(start, end)] + plan(end, total, size)
    }
}

/// The batches follow one another from `start` to `total` without a gap or
/// an overlap; none is empty or longer than `size`, and each but the last
/// holds `size` records.
pub proof fn lemma_plan_partitions(start: int, total: int, size: int)
    requires
        0 <= start <= total,
        size > 0,
    ensures
        plan(start, total, size).len() > 0 <==> start < total,
        start < total ==> plan(start, total, size)[0].0 == start && plan(
            start,
            total,
            size,
        ).last().1 == total,
        forall|k: int|
            0 <= k < plan(start, total, size).len() ==> {
                let b = #[trigger] plan(start, total, size)[k];
                &&& start <= b.0 < b.1 <= total
                &&& b.1 - b.0 <= size
                &&& (k + 1 < plan(start, total, size).len() ==> b.1 - b.0 == size && plan(
                    start,
                    total,
                    size,
                )[k + 1].0 == b.1)
                &&& (k + 1 == plan(start, total, size).len() ==> b.1 == total)
            },
    decreases total - start,
{
    if start < total {
        let end = end_of_batch(start, total, size);
        let rest = plan(end, total, size);
        let all = plan(start, total, size);
        lemma_plan_partitions(end, total, size);
        assert(all =~= seq![(start, end)] + rest);
        assert forall|k: int| 0 <= k < all.len() implies {
            let b = #[trigger] all[k];
            &&& start <= b.0 < b.1 <= total
            &&& b.1 - b.0 <= size
            &&& (k + 1 < all.len() ==> b.1 - b.0 == size && all[k + 1].0 == b.1)
            &&& (k + 1 == all.len() ==> b.1 == total)
        } by {
            if k > 0 {
                assert(all[k] == rest[k - 1]);
                if k + 1 < all.len() {
                    assert(all[k + 1] == rest[k]);
                }
            } else {
                if 1 < all.len() {
                    assert(all[1] == rest[0]);
                }
            }
        }
        if rest.len() > 0 {
            assert(all.last() == rest.last());
        }
    }
}

/// There are as many batches as are needed and no more: all of them
/// together have room for the records, and one fewer would not.
pub proof fn lemma_plan_count(start: int, total: int, size: int)
    requires
        0 <= start < total,
        size > 0,
    ensures
        (plan(start, total, size).len() - 1) * size < total - start <= plan(
            start,
            total,
            size,
        ).len() * size,
    decreases total - start,
{
    let end = end_of_batch(start, total, size);
    let rest = plan(end, total, size);
    let all = plan(start, total, size);
    assert(all =~= seq![(start, end)] + rest);
    if end < total {
        lemma_plan_count(end, total, size);
        let n = rest.len() as int;
        assert((n - 1) * size + size == n * size) by (nonlinear_arith);
        assert(n * size + size == (n + 1) * size) by (nonlinear_arith);
    } else {
        assert(rest =~= Seq::<(int, int)>::empty());
        assert(0 * size == 0) by (nonlinear_arith);
        assert(1 * size == size) by (nonlinear_arith);
    }
}

/// The position of a record in the batches: every record from `start` on
/// lies in exactly one batch.
pub proof fn lemma_plan_covers(start: int, total: int, size: int, i: int)
    requires
        0 <= start <= i < total,
        size > 0,
    ensures
        exists|k: int|
            0 <= k < plan(start, total, size).len() && (#[trigger] plan(start, total, size)[k]).0
                <= i < plan(start, total, size)[k].1,
        forall|j: int, k: int|
            0 <= j < plan(start, total, size).len() && 0 <= k < plan(start, total, size).len() && (
            #[trigger] plan(start, total, size)[j]).0 <= i < plan(start, total, size)[j].1 && (
            #[trigger] plan(start, total, size)[k]).0 <= i < plan(start, total, size)[k].1 ==> j
                == k,
    decreases total - start,
{
    let end = end_of_batch(start, total, size);
    let rest = plan(end, total, size);
    let all = plan(start, total, size);
    assert(all =~= seq![(start, end)] + rest);
    lemma_plan_partitions(end, total, size);
    if i < end {
        assert(all[0].0 <= i < all[0].1);
        assert forall|j: int, k: int|
            0 <= j < all.len() && 0 <= k < all.len() && (#[trigger] all[j]).0 <= i < all[j].1 && (
            #[trigger] all[k]).0 <= i < all[k].1 implies j == k by {
            if j > 0 {
                assert(all[j] == rest[j - 1]);
            }
            if k > 0 {
                assert(all[k] == rest[k - 1]);
            }
        }
    } else {
        lemma_plan_covers(end, total, size, i);
        let k = choose|k: int| 0 <= k < rest.len() && (#[trigger] rest[k]).0 <= i < rest[k].1;
        assert(all[k + 1] == rest[k]);
        assert forall|j: int, k: int|
            0 <= j < all.len() && 0 <= k < all.len() && (#[trigger] all[j]).0 <= i < all[j].1 && (
            #[trigger] all[k]).0 <= i < all[k].1 implies j == k by {
            if j > 0 {
                assert(all[j] == rest[j - 1]);
            }
            if k > 0 {
                assert(all[k] == rest[k - 1]);
            }
        }
    }
}

/// How far a delivery has come.
#[derive(Debug, Clone, Copy, PartialEq, Eq, Structural)]
pub enum Status {
    /// A batch is waiting to be sent.
    Running,
    /// Every batch was accepted.
    Done,
    /// A batch was refused at every attempt.
    Failed,
}

/// What the sender does next.
#[derive(Debug, Clone, Copy, PartialEq, Eq, Structural)]
pub enum Action {
    /// Wait `delay_ms` milliseconds, then send the records from position
    /// `start` up to, not including, `end`. `attempt` counts from 1.
    Send { start: usize, end: usize, attempt: u32, delay_ms: u64 },
    /// Nothing is left to send.
    Done,
    /// The batch from `start` to `end` was refused `attempts` times.
    Failed { start: usize, end: usize, attempts: u32 },
}

/// The state of a delivery between two attempts to send.
#[derive(Debug, Clone, Copy, PartialEq, Eq, Structural)]
pub struct Delivery {
    /// The number of records to deliver.
    pub total: usize,
    /// The number of records in a batch, but for the last.
    pub batch_size: usize,
    /// The wait after an accepted batch, in milliseconds.
    pub flush_ms: u64,
    /// The attempts made for a batch before the delivery fails.
    pub max_attempts: u32,
    /// The wait after the first refusal, in milliseconds.
    pub retry_base_ms: u64,
    /// Where the current batch starts.
    pub start: usize,
    /// The number of the coming attempt for the current batch, from 1.
    pub attempt: u32,
    /// The wait before the coming attempt.
    pub delay_ms: u64,
    pub status: Status,
}

/// The wait after the attempt numbered `attempt` was refused: that many
/// times the base, as far as the machine's integers go.
pub open spec fn backoff(attempt: u32, base_ms: u64) -> u64 {
    if attempt * base_ms <= u64::MAX {
        (attempt * base_ms) as u64
    } else {
        u64::MAX
    }
}

/// The state in which a delivery starts.
pub open spec fn initial(
    total: usize,
    batch_size: usize,
    flush_ms: u64,
    max_attempts: u32,
    retry_base_ms: u64,
) -> Delivery {
    Delivery {
        total,
        batch_size,
        flush_ms,
        max_attempts,
        retry_base_ms,
        start: 0,
        attempt: 1,
        delay_ms: 0,
        status: if total == 0 {
            Status::Done
        } else {
            Status::Running
        },
    }
}

impl Delivery {
    /// Whether the state is one that a delivery can be in.
    pub open spec fn wf(self) -> bool {
        &&& self.batch_size > 0
        &&& self.start <= self.total
        &&& 1 <= self.attempt
        &&& (self.status == Status::Running ==> self.start < self.total && (self.attempt
            <= self.max_attempts || self.attempt == 1))
        &&& (self.status == Status::Done ==> self.start == self.total)
        &&& (self.status == Status::Failed ==> self.start < self.total)
    }

    /// Where the current batch ends.
    pub open spec fn batch_end(self) -> usize {
        end_of_batch(self.start as int, self.total as int, self.batch_size as int) as usize
    }

    /// What the sender does next in this state.
    pub open spec fn pending(self) -> Action {
        match self.status {
            Status::Running => Action::Send {
                start: self.start,
                end: self.batch_end(),
                attempt: self.attempt,
                delay_ms: self.delay_ms,
            },
            Status::Done => Action::Done,
            Status::Failed => Action::Failed {
                start: self.start,
                end: self.batch_end(),
                attempts: self.attempt,
            },
        }
    }

    /// The state after the sink has answered the pending attempt. An accepted
    /// batch is followed by the next one, after the wait between batches,
    /// or by the end. A refused batch is tried again after a wait that grows
    /// with each attempt, until the attempts are used up. A delivery that has
    /// ended stays as it is.
    pub open spec fn after(self, accepted: bool) -> Delivery {
        if self.status != Status::Running {
            self
        } else if accepted {
            let end = self.batch_end();
            if end >= self.total {
                Delivery { start: end, attempt: 1, delay_ms: 0, status: Status::Done, ..self }
            } else {
                Delivery { start: end, attempt: 1, delay_ms: self.flush_ms, ..self }
            }
        } else if self.attempt >= self.max_attempts {
            Delivery { delay_ms: 0, status: Status::Failed, ..self }
        } else {
            Delivery {
                attempt: (self.attempt + 1) as u32,
                delay_ms: backoff(self.attempt, self.retry_base_ms),
                ..self
            }
        }
    }

    /// The state after the sink has answered one attempt after another.
    pub open spec fn run(self, outcomes: Seq<bool>) -> Delivery
        decreases outcomes.len(),
    {
        if outcomes.len() == 0 {
            self
        } else {
            self.after(outcomes[0]).run(outcomes.drop_first())
        }
    }

    /// The attempts that the answers in `outcomes` were given to. An answer
    /// that comes after the delivery has ended belongs to no attempt.
    pub open spec fn trace(self, outcomes: Seq<bool>) -> Seq<Action>
        decreases outcomes.len(),
    {
        if outcomes.len() == 0 || self.status != Status::Running {
            Seq::empty()
        } else {
            seq![self.pending()] + self.after(outcomes[0]).trace(outcomes.drop_first())
        }
    }

    /// A delivery of `total` records in batches of `batch_size`.
    pub fn new(
        total: usize,
        batch_size: usize,
        flush_ms: u64,
        max_attempts: u32,
        retry_base_ms: u64,
    ) -> (d: Delivery)
        requires
            batch_size > 0,
        ensures
            d == initial(total, batch_size, flush_ms, max_attempts, retry_base_ms),
            d.wf(),
    {
        Delivery {
            total,
            batch_size,
            flush_ms,
            max_attempts,
            retry_base_ms,
            start: 0,
            attempt: 1,
            delay_ms: 0,
            status: if total == 0 {
                Status::Done
            } else {
                Status::Running
            },
        }
    }

    /// Where the current batch ends.
    pub fn current_end(&self) -> (end: usize)
        ensures
            end == self.batch_end(),
    {
        if self.start <= self.total && self.batch_size < self.total - self.start {
            self.start + self.batch_size
        } else {
            self.total
        }
    }

    /// What the sender does next.
    pub fn next_action(&self) -> (a: Action)
        ensures
            a == self.pending(),
    {
        match self.status {
            Status::Running => Action::Send {
                start: self.start,
                end: self.current_end(),
                attempt: self.attempt,
                delay_ms: self.delay_ms,
            },
            Status::Done => Action::Done,
            Status::Failed => Action::Failed {
                start: self.start,
                end: self.current_end(),
                attempts: self.attempt,
            },
        }
    }

    /// Takes the sink's answer to the pending attempt.
    pub fn report(&mut self, accepted: bool)
        ensures
            *final(self) == old(self).after(accepted),
            old(self).wf() ==> final(self).wf(),
    {
        match self.status {
            Status::Running => {
                if accepted {
                    let end = self.current_end();
                    self.start = end;
                    self.attempt = 1;
                    if end >= self.total {
                        self.delay_ms = 0;
                        self.status = Status::Done;
                    } else {
                        self.delay_ms = self.flush_ms;
                    }
                } else if self.attempt >= self.max_attempts {
                    self.delay_ms = 0;
                    self.status = Status::Failed;
                } else {
                    self.delay_ms = backoff_ms(self.attempt, self.retry_base_ms);
                    self.attempt = self.attempt + 1;
                }
            },
            _ => {},
        }
    }

    /// Whether the delivery has failed: a batch was refused at every attempt.
    /// Nothing else makes a run fail.
    pub fn has_failed(&self) -> (b: bool)
        ensures
            b == (self.status == Status::Failed),
    {
        match self.status {
            Status::Failed => true,
            _ => false,
        }
    }
}

/// The wait after the attempt numbered `attempt` was refused.
pub fn backoff_ms(attempt: u32, base_ms: u64) -> (ms: u64)
    ensures
        ms == backoff(attempt, base_ms),
{
    let k: u64 = attempt as u64;
    match k.checked_mul(base_ms) {
        Some(ms) => ms,
        None => u64::MAX,
    }
}

/// Whether a response status is one of success.
pub open spec fn status_accepted(status: u16) -> bool {
    200 <= status < 300
}

/// Whether the sink accepted a batch, given the status of its response.
pub fn is_success(status: u16) -> (b: bool)
    ensures
        b == status_accepted(status),
{
    200 <= status && status < 300
}

/// The attempt that follows `j` refusals of the current batch of `d`.
pub open spec fn attempt_at(d: Delivery, j: int) -> Action {
    Action::Send {
        start: d.start,
        end: d.batch_end(),
        attempt: (d.attempt + j) as u32,
        delay_ms: if j == 0 {
            d.delay_ms
        } else {
            backoff((d.attempt + j - 1) as u32, d.retry_base_ms)
        },
    }
}

/// Where the sink accepts every batch at its first attempt, the attempts are
/// the batches of the plan, one attempt each and in order, with the wait
/// between batches before each but the first, and the delivery ends well.
pub proof fn lemma_all_accepted(d: Delivery, outcomes: Seq<bool>)
    requires
        d.wf(),
        d.status != Status::Failed,
        d.attempt == 1,
        outcomes.len() == plan(d.start as int, d.total as int, d.batch_size as int).len(),
        forall|i: int| 0 <= i < outcomes.len() ==> outcomes[i],
    ensures
        d.run(outcomes).status == Status::Done,
        d.run(outcomes).start == d.total,
        d.trace(outcomes).len() == outcomes.len(),
        forall|k: int|
            0 <= k < outcomes.len() ==> #[trigger] d.trace(outcomes)[k] == (Action::Send {
                start: plan(d.start as int, d.total as int, d.batch_size as int)[k].0 as usize,
                end: plan(d.start as int, d.total as int, d.batch_size as int)[k].1 as usize,
                attempt: 1,
                delay_ms: if k == 0 {
                    d.delay_ms
                } else {
                    d.flush_ms
                },
            }),
    decreases outcomes.len(),
{
    let batches = plan(d.start as int, d.total as int, d.batch_size as int);
    if d.status == Status::Running {
        let next = d.after(true);
        let rest = outcomes.drop_first();
        let end = d.batch_end();
        assert(batches =~= seq![(d.start as int, end as int)] + plan(
            end as int,
            d.total as int,
            d.batch_size as int,
        ));
        assert(outcomes[0]);
        assert(next.wf());
        assert forall|i: int| 0 <= i < rest.len() implies rest[i] by {
            assert(rest[i] == outcomes[i + 1]);
        }
        lemma_all_accepted(next, rest);
        assert(d.trace(outcomes) =~= seq![d.pending()] + next.trace(rest));
        assert forall|k: int| 0 <= k < outcomes.len() implies #[trigger] d.trace(outcomes)[k] == (
        Action::Send {
            start: batches[k].0 as usize,
            end: batches[k].1 as usize,
            attempt: 1,
            delay_ms: if k == 0 {
                d.delay_ms
            } else {
                d.flush_ms
            },
        }) by {
            if k > 0 {
                assert(d.trace(outcomes)[k] == next.trace(rest)[k - 1]);
                assert(batches[k] == plan(end as int, d.total as int, d.batch_size as int)[k - 1]);
            }
        }
    } else {
        assert(batches =~= Seq::<(int, int)>::empty());
    }
}

/// The answers of a sink that refuses `failures` times and then accepts.
pub open spec fn refused_then_accepted(failures: nat) -> Seq<bool> {
    Seq::new(failures, |i: int| false).push(true)
}

/// Where the sink refuses the current batch `failures` times and then
/// accepts it, the batch is sent once more than it was refused, each time
/// the same records, with a wait before each repeated attempt that is the
/// base times the number of the attempt refused before it; and the delivery
/// goes on as if the batch had been accepted at once.
pub proof fn lemma_retry_then_accept(d: Delivery, failures: nat)
    requires
        d.wf(),
        d.status == Status::Running,
        d.attempt + failures <= d.max_attempts,
    ensures
        d.run(refused_then_accepted(failures)) == d.after(true),
        d.trace(refused_then_accepted(failures)).len() == failures + 1,
        forall|j: int|
            0 <= j <= failures ==> #[trigger] d.trace(refused_then_accepted(failures))[j]
                == attempt_at(d, j),
    decreases failures,
{
    let outcomes = refused_then_accepted(failures);
    let rest = outcomes.drop_first();
    assert(d.run(outcomes) == d.after(outcomes[0]).run(rest));
    if failures == 0 {
        assert(outcomes[0]);
        assert(rest =~= Seq::<bool>::empty());
        assert(d.after(true).run(rest) == d.after(true));
        assert(d.after(true).trace(rest) =~= Seq::<Action>::empty());
        assert(d.trace(outcomes) =~= seq![d.pending()]);
    } else {
        let next = d.after(false);
        assert(!outcomes[0]);
        assert(rest =~= refused_then_accepted((failures - 1) as nat));
        lemma_retry_then_accept(next, (failures - 1) as nat);
        assert(d.trace(outcomes) =~= seq![d.pending()] + next.trace(rest));
        assert(next.after(true) == d.after(true));
        assert forall|j: int| 0 <= j <= failures implies #[trigger] d.trace(outcomes)[j]
            == attempt_at(d, j) by {
            if j > 0 {
                assert(d.trace(outcomes)[j] == next.trace(rest)[j - 1]);
                assert(next.trace(rest)[j - 1] == attempt_at(next, j - 1));
            }
        }
    }
}

/// Where the sink refuses every attempt, the current batch is sent as often
/// as attempts are allowed and no other batch is sent at all; the delivery
/// then fails and names the batch and the number of attempts.
pub proof fn lemma_retries_exhausted(d: Delivery, outcomes: Seq<bool>)
    requires
        d.wf(),
        d.status == Status::Running,
        d.attempt <= d.max_attempts,
        outcomes.len() >= d.max_attempts - d.attempt + 1,
        forall|i: int| 0 <= i < outcomes.len() ==> !outcomes[i],
    ensures
        d.run(outcomes).status == Status::Failed,
        d.run(outcomes).pending() == (Action::Failed {
            start: d.start,
            end: d.batch_end(),
            attempts: d.max_attempts,
        }),
        d.trace(outcomes).len() == d.max_attempts - d.attempt + 1,
        forall|j: int|
            0 <= j <= d.max_attempts - d.attempt ==> #[trigger] d.trace(outcomes)[j] == attempt_at(
                d,
                j,
            ),
    decreases outcomes.len(),
{
    let next = d.after(false);
    let rest = outcomes.drop_first();
    assert(!outcomes[0]);
    assert forall|i: int| 0 <= i < rest.len() implies !rest[i] by {
        assert(rest[i] == outcomes[i + 1]);
    }
    assert(d.trace(outcomes) =~= seq![d.pending()] + next.trace(rest));
    if d.attempt >= d.max_attempts {
        lemma_ended_stays(next, rest);
    } else {
        lemma_retries_exhausted(next, rest);
        assert forall|j: int| 0 <= j <= d.max_attempts - d.attempt implies #[trigger] d.trace(
            outcomes,
        )[j] == attempt_at(d, j) by {
            if j > 0 {
                assert(d.trace(outcomes)[j] == next.trace(rest)[j - 1]);
                assert(next.trace(rest)[j - 1] == attempt_at(next, j - 1));
            }
        }
    }
}

/// A delivery that has ended makes no further attempt and stays as it is,
/// whatever answers follow.
pub proof fn lemma_ended_stays(d: Delivery, outcomes: Seq<bool>)
    requires
        d.status != Status::Running,
    ensures
        d.run(outcomes) == d,
        d.trace(outcomes) == Seq::<Action>::empty(),
    decreases outcomes.len(),
{
    if outcomes.len() > 0 {
        lemma_ended_stays(d, outcomes.drop_first());
    }
}

/// The wait grows from one refused attempt to the next, as long as the
/// machine's integers hold it.
pub proof fn lemma_backoff_increases(a: u32, b: u32, base_ms: u64)
    requires
        a < b,
        base_ms > 0,
        b * base_ms <= u64::MAX,
    ensures
        backoff(a, base_ms) < backoff(b, base_ms),
        backoff(a, base_ms) == a * base_ms,
        backoff(b, base_ms) == b * base_ms,
{
    assert(a * base_ms < b * base_ms) by (nonlinear_arith)
        requires
            a < b,
            base_ms > 0,
    ;
}

/// What is reported of a batch that the sink answered without success: the
/// status and the body of the answer.
pub open spec fn rejection_text(status: Seq<char>, body: Seq<char>) -> Seq<char> {
    status + " - "@ + body
}

/// What is reported of a batch that could not be sent at all.
pub open spec fn transport_text(error: Seq<char>) -> Seq<char> {
    "POST send error: "@ + error
}

/// What is reported of a delivery that failed: the range of the batch, as
/// the positions of its first record and of the one after its last, and the
/// error of the last attempt.
pub open spec fn failure_text(start: usize, end: usize, error: Seq<char>) -> Seq<char> {
    "POST ["@ + decimal_text(start as nat) + "-"@ + decimal_text(end as nat) + ") failed: "@ + error
}

/// What is reported of a batch that the sink answered without success.
pub fn rejection_message(status: &str, body: &str) -> (message: String)
    ensures
        message@ == rejection_text(status@, body@),
{
    join3(status, " - ", body)
}

/// What is reported of a batch that could not be sent at all.
pub fn transport_message(error: &str) -> (message: String)
    ensures
        message@ == transport_text(error@),
{
    join2("POST send error: ", error)
}

/// What is reported of a delivery that failed.
pub fn failure_message(start: usize, end: usize, error: &str) -> (message: String)
    ensures
        message@ == failure_text(start, end, error@),
{
    let first = decimal(start as u64);
    let last = decimal(end as u64);
    let mut message = join4("POST [", first.as_str(), "-", last.as_str());
    message.append(") failed: ");
    message.append(error);
    message
}

/// The batches of `total` records, `batch_size` to a batch.
pub fn batch_ranges(total: usize, batch_size: usize) -> (r: Vec<(usize, usize)>)
    requires
        batch_size > 0,
    ensures
        r@.len() == plan(0, total as int, batch_size as int).len(),
        forall|k: int|
            0 <= k < r@.len() ==> (#[trigger] r@[k]).0 == plan(
                0,
                total as int,
                batch_size as int,
            )[k].0 && r@[k].1 == plan(0, total as int, batch_size as int)[k].1,
{
    let mut out: Vec<(usize, usize)> = Vec::new();
    let mut start: usize = 0;
    let ghost all = plan(0, total as int, batch_size as int);
    while start < total
        invariant
            batch_size > 0,
            start <= total,
            all == plan(0, total as int, batch_size as int),
            all =~= Seq::new(out@.len(), |k: int| (out@[k].0 as int, out@[k].1 as int)) + plan(
                start as int,
                total as int,
                batch_size as int,
            ),
        decreases total - start,
    {
        let end: usize = if batch_size < total - start {
            start + batch_size
        } else {
            total
        };
        out.push((start, end));
        start = end;
    }
    out
}

} // verus!
