//! The retry/escalation controller: a finite state machine over probe
//! attempts with a single forward transition Fast -> Stealth -> AntiBlock,
//! terminal on success, on a rate-limit block, and on an exhausted budget.

use crate::outcome::ResultStatus;
use crate::outcome::ScanResult;
use vstd::prelude::*;

verus! {

/// The evasion posture of one probe attempt.
#[derive(Debug, Clone, Copy, PartialEq, Eq, Structural)]
pub enum ScrapingStrategy {
    Fast,
    Stealth,
    AntiBlock,
}

/// The strategy of the attempt made after `retries_done` retries: the
/// first attempt is plain, the first retry stealthy, and every later retry
/// runs with full evasion.
pub open spec fn strategy_for_attempt(retries_done: int) -> ScrapingStrategy {
    if retries_done == 0 {
        ScrapingStrategy::Fast
    } else if retries_done == 1 {
        ScrapingStrategy::Stealth
    } else {
        ScrapingStrategy::AntiBlock
    }
}

/// What the controller does after one attempt: stop with the attempt's
/// outcome, or retry under an escalated strategy after a linear backoff.
#[derive(Debug, Clone, Copy, PartialEq, Eq, Structural)]
pub enum RetryDecision {
    Stop,
    Escalate { strategy: ScrapingStrategy, delay_ms: u64 },
}

/// The controller's transition: stop on any classified outcome, on a
/// Blocked outcome, and on an exhausted budget; otherwise escalate and
/// wait 100 ms times the retry number.
pub open spec fn retry_decision(
    error: bool,
    status: ResultStatus,
    retries_done: u32,
    max_retries: u32,
) -> RetryDecision {
    if !error || status == ResultStatus::Blocked || retries_done >= max_retries {
        RetryDecision::Stop
    } else {
        RetryDecision::Escalate {
            strategy: strategy_for_attempt(retries_done + 1),
            delay_ms: (100 * (retries_done + 1)) as u64,
        }
    }
}

/// Decide whether to retry after an attempt whose outcome is `result`,
/// with `retries_done` retries already made of a budget of `max_retries`.
pub fn next_attempt(result: &ScanResult, retries_done: u32, max_retries: u32) -> (d: RetryDecision)
    ensures
        d == retry_decision(result.error, result.status, retries_done, max_retries),
{
    if !result.error || result.status == ResultStatus::Blocked || retries_done >= max_retries {
        RetryDecision::Stop
    } else {
        let next: u32 = retries_done + 1;
        let strategy: ScrapingStrategy = if next == 1 {
            ScrapingStrategy::Stealth
        } else {
            ScrapingStrategy::AntiBlock
        };
        RetryDecision::Escalate { strategy, delay_ms: 100 * (next as u64) }
    }
}

/// Escalation path of a probe that keeps failing without being blocked:
/// the first attempt is Fast; while budget remains, each failing attempt
/// escalates, to Stealth for the first retry and AntiBlock for all later
/// ones, waiting 100 ms times the retry number; once `max_retries` retries
/// were made the controller stops.  With a budget of two the attempt
/// strategies are exactly Fast, Stealth, AntiBlock.
pub proof fn lemma_escalation_path(status: ResultStatus, max_retries: u32)
    requires
        status != ResultStatus::Blocked,
    ensures
        strategy_for_attempt(0) == ScrapingStrategy::Fast,
        strategy_for_attempt(1) == ScrapingStrategy::Stealth,
        forall|a: int| a >= 2 ==> strategy_for_attempt(a) == ScrapingStrategy::AntiBlock,
        forall|r: u32|
            r < max_retries ==> #[trigger] retry_decision(true, status, r, max_retries)
                == (RetryDecision::Escalate {
                strategy: strategy_for_attempt(r + 1),
                delay_ms: (100 * (r + 1)) as u64,
            }),
        retry_decision(true, status, max_retries, max_retries) == RetryDecision::Stop,
{
}

/// A Blocked outcome ends the probe after the attempt that produced it:
/// whatever the remaining budget, no retry follows.
pub proof fn lemma_blocked_stops(error: bool, retries_done: u32, max_retries: u32)
    ensures
        retry_decision(error, ResultStatus::Blocked, retries_done, max_retries)
            == RetryDecision::Stop,
{
}

/// Any error-free outcome ends the probe: classified results, found or
/// not, are never retried.
pub proof fn lemma_classified_stops(status: ResultStatus, retries_done: u32, max_retries: u32)
    ensures
        retry_decision(false, status, retries_done, max_retries) == RetryDecision::Stop,
{
}

} // verus!
