//! The attempts to post one payload.

use crate::out::delivery::{RETRIES, RETRY_BASE_MS};
use vstd::prelude::*;

verus! {

/// What follows an attempt to post a payload.
#[derive(Debug, Clone, Copy, PartialEq, Eq, Structural)]
pub enum BulkAction {
    /// The payload was accepted.
    Done,
    /// Wait, then make the attempt numbered `attempt`.
    Retry { wait_ms: u64, attempt: u32 },
    /// Wait, then give up with the error of the last attempt.
    GiveUp { wait_ms: u64 },
}

/// What follows the attempt numbered `attempt`, counted from 1: nothing
/// where the payload was accepted; otherwise a wait of the base times the
/// number of the attempt, and then another attempt, unless this was the
/// last one allowed.
pub open spec fn bulk_step(attempt: u32, accepted: bool) -> BulkAction {
    if accepted {
        BulkAction::Done
    } else if attempt < RETRIES {
        BulkAction::Retry {
            wait_ms: if attempt * RETRY_BASE_MS <= u64::MAX {
                (attempt * RETRY_BASE_MS) as u64
            } else {
                u64::MAX
            },
            attempt: (attempt + 1) as u32,
        }
    } else {
        BulkAction::GiveUp {
            wait_ms: if attempt * RETRY_BASE_MS <= u64::MAX {
                (attempt * RETRY_BASE_MS) as u64
            } else {
                u64::MAX
            },
        }
    }
}

/// What follows the attempt numbered `attempt`.
pub fn after_attempt(attempt: u32, accepted: bool) -> (action: BulkAction)
    ensures
        action == bulk_step(attempt, accepted),
{
    if accepted {
        BulkAction::Done
    } else {
        let wait_ms = crate::out::delivery::backoff_ms(attempt, RETRY_BASE_MS);
        if attempt < RETRIES {
            BulkAction::Retry { wait_ms, attempt: attempt + 1 }
        } else {
            BulkAction::GiveUp { wait_ms }
        }
    }
}

/// What is reported of a payload that the sink answered without success.
pub fn status_message(status: &str, body: &str) -> (message: String)
    ensures
        message@ == "HTTP "@ + status@ + " "@ + body@,
{
    crate::text::join4("HTTP ", status, " ", body)
}

/// The attempts that are made where the sink refuses each of them, from
/// the one numbered `attempt` on.
pub open spec fn refused_attempts(attempt: u32) -> nat
    decreases RETRIES - attempt,
{
    match bulk_step(attempt, false) {
        BulkAction::Retry { attempt: next, .. } => if attempt < RETRIES {
            1 + refused_attempts(next)
        } else {
            1
        },
        _ => 1,
    }
}

/// A payload that the sink always refuses is posted as often as attempts
/// are allowed, and no more.
pub proof fn lemma_bulk_attempts()
    ensures
        refused_attempts(1) == RETRIES,
{
    reveal_with_fuel(refused_attempts, 4);
}

} // verus!
