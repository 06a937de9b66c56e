use vstd::prelude::*;
use crate::error::{ConnectFailure, ObsCmdError};

verus! {

/// How connection attempts are made: each attempt is bounded by its own
/// timeout, and a failed attempt is retried after a fixed delay while
/// attempts remain.
#[derive(Clone, Copy, Debug, PartialEq, Eq)]
pub struct ConnectionConfig {
    /// Longest wait for a single attempt, in seconds.
    pub timeout_secs: u64,
    /// Number of attempts before giving up.
    pub max_retries: u32,
    /// Wait between two attempts, in seconds.
    pub retry_delay_secs: u64,
}

impl Default for ConnectionConfig {
    fn default() -> (r: Self)
        ensures
            r.timeout_secs == 10,
            r.max_retries == 3,
            r.retry_delay_secs == 2,
    {
        ConnectionConfig { timeout_secs: 10, max_retries: 3, retry_delay_secs: 2 }
    }
}

/// What one connection attempt came to.
#[derive(Clone, Debug, PartialEq, Eq)]
pub enum AttemptOutcome {
    Connected,
    Failed(ConnectFailure),
}

/// What to do after an attempt.
#[derive(Debug, PartialEq, Eq)]
pub enum RetryDecision {
    /// Use the session; it took this many attempts.
    Connected { attempts: u32 },
    /// Sleep this long, then make the next attempt.
    RetryAfter { delay_secs: u64 },
    /// Stop; no session can be had.
    GiveUp(ObsCmdError),
}

/// The decision after attempt number `attempt` (from 1) came to `outcome`.
pub open spec fn decision(config: ConnectionConfig, attempt: u32, outcome: AttemptOutcome) -> RetryDecision {
    match outcome {
        AttemptOutcome::Connected => RetryDecision::Connected { attempts: attempt },
        AttemptOutcome::Failed(failure) => if attempt < config.max_retries {
            RetryDecision::RetryAfter { delay_secs: config.retry_delay_secs }
        } else {
            RetryDecision::GiveUp(
                ObsCmdError::AllConnectionAttemptsFailed {
                    attempts: config.max_retries,
                    last_failure: failure,
                },
            )
        },
    }
}

/// Decides what follows attempt number `attempt`, which came to `outcome`.
pub fn after_attempt(config: &ConnectionConfig, attempt: u32, outcome: AttemptOutcome) -> (d: RetryDecision)
    requires
        1 <= attempt <= config.max_retries,
    ensures
        d == decision(*config, attempt, outcome),
{
    match outcome {
        AttemptOutcome::Connected => RetryDecision::Connected { attempts: attempt },
        AttemptOutcome::Failed(failure) => if attempt < config.max_retries {
            RetryDecision::RetryAfter { delay_secs: config.retry_delay_secs }
        } else {
            RetryDecision::GiveUp(
                ObsCmdError::AllConnectionAttemptsFailed {
                    attempts: config.max_retries,
                    last_failure: failure,
                },
            )
        },
    }
}

/// The run of the connection loop from attempt number `attempt` on, when
/// attempt `i` comes to `outcomes[i - 1]`: the attempts made, the sleeps
/// taken, and the result. The loop makes an attempt, asks `decision`, and
/// sleeps before the next attempt when told to retry.
pub open spec fn run_from(config: ConnectionConfig, outcomes: Seq<AttemptOutcome>, attempt: int) -> (
    int,
    int,
    Result<u32, ObsCmdError>,
)
    decreases config.max_retries - attempt,
{
    if 1 <= attempt <= config.max_retries && attempt <= outcomes.len() {
        match decision(config, attempt as u32, outcomes[attempt - 1]) {
            RetryDecision::Connected { attempts } => (attempt, 0, Ok(attempts)),
            RetryDecision::RetryAfter { .. } => {
                let (made, slept, result) = run_from(config, outcomes, attempt + 1);
                (made, slept + 1, result)
            },
            RetryDecision::GiveUp(e) => (attempt, 0, Err(e)),
        }
    } else {
        (attempt - 1, 0, Err(ObsCmdError::UnexpectedReply))
    }
}

/// The whole run of the connection loop.
pub open spec fn connect_run(config: ConnectionConfig, outcomes: Seq<AttemptOutcome>) -> (
    int,
    int,
    Result<u32, ObsCmdError>,
) {
    run_from(config, outcomes, 1)
}

proof fn lemma_failing_from(config: ConnectionConfig, outcomes: Seq<AttemptOutcome>, attempt: int)
    requires
        1 <= attempt <= config.max_retries,
        outcomes.len() >= config.max_retries,
        forall|i: int| 0 <= i < config.max_retries ==> #[trigger] outcomes[i] is Failed,
    ensures
        run_from(config, outcomes, attempt) == (
            config.max_retries as int,
            config.max_retries - attempt,
            Err::<u32, ObsCmdError>(
                ObsCmdError::AllConnectionAttemptsFailed {
                    attempts: config.max_retries,
                    last_failure: outcomes[config.max_retries - 1]->Failed_0,
                },
            ),
        ),
    decreases config.max_retries - attempt,
{
    assert(outcomes[attempt - 1] is Failed);
    if attempt < config.max_retries {
        lemma_failing_from(config, outcomes, attempt + 1);
    }
}

/// When every attempt fails, the loop gives up with `AllConnectionAttemptsFailed`
/// after exactly `max_retries` attempts, having slept `max_retries - 1` times.
pub proof fn lemma_always_failing(config: ConnectionConfig, outcomes: Seq<AttemptOutcome>)
    requires
        config.max_retries >= 1,
        outcomes.len() >= config.max_retries,
        forall|i: int| 0 <= i < config.max_retries ==> #[trigger] outcomes[i] is Failed,
    ensures
        connect_run(config, outcomes) == (
            config.max_retries as int,
            config.max_retries - 1,
            Err::<u32, ObsCmdError>(
                ObsCmdError::AllConnectionAttemptsFailed {
                    attempts: config.max_retries,
                    last_failure: outcomes[config.max_retries - 1]->Failed_0,
                },
            ),
        ),
{
    lemma_failing_from(config, outcomes, 1);
}

proof fn lemma_success_from(config: ConnectionConfig, outcomes: Seq<AttemptOutcome>, k: int, attempt: int)
    requires
        1 <= attempt <= k <= config.max_retries,
        outcomes.len() >= k,
        forall|i: int| 0 <= i < k - 1 ==> #[trigger] outcomes[i] is Failed,
        outcomes[k - 1] is Connected,
    ensures
        run_from(config, outcomes, attempt) == (k, k - attempt, Ok::<u32, ObsCmdError>(k as u32)),
    decreases k - attempt,
{
    if attempt < k {
        assert(outcomes[attempt - 1] is Failed);
        lemma_success_from(config, outcomes, k, attempt + 1);
    }
}

/// When attempt `k` is the first to connect, the loop returns the session
/// after exactly `k` attempts, having slept `k - 1` times.
pub proof fn lemma_first_success(config: ConnectionConfig, outcomes: Seq<AttemptOutcome>, k: int)
    requires
        1 <= k <= config.max_retries,
        outcomes.len() >= k,
        forall|i: int| 0 <= i < k - 1 ==> #[trigger] outcomes[i] is Failed,
        outcomes[k - 1] is Connected,
    ensures
        connect_run(config, outcomes) == (k, k - 1, Ok::<u32, ObsCmdError>(k as u32)),
{
    lemma_success_from(config, outcomes, k, 1);
}

} // verus!
