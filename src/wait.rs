use vstd::prelude::*;
use crate::status::ProfileStatus;

verus! {

/// Seconds to sleep between two polls of a job.
pub const POLL_INTERVAL_SECS: u64 = 3;

/// What the wait loop does after a poll.
#[derive(Clone, Copy, Debug, PartialEq, Eq, Structural)]
pub enum WaitStep {
    /// The job reached a terminal status.
    Finished,
    /// The deadline passed without a terminal status.
    TimedOut,
    /// Sleep for the poll interval, then poll again.
    PollAgain,
}

/// True of a poll that saw `Complete` or `Failed`.
pub open spec fn observed_terminal(observed: Result<ProfileStatus, String>) -> bool {
    match observed {
        Ok(s) => s.spec_is_terminal(),
        Err(_) => false,
    }
}

/// The decision after one poll, made `elapsed_ms` after the wait began.
pub open spec fn step_of(observed: Result<ProfileStatus, String>, elapsed_ms: u64, timeout_ms: u64) -> WaitStep {
    if observed_terminal(observed) {
        WaitStep::Finished
    } else if elapsed_ms > timeout_ms {
        WaitStep::TimedOut
    } else {
        WaitStep::PollAgain
    }
}

/// Decides what the wait loop does after a poll: stop on a terminal status,
/// give up once more than `timeout_ms` has passed, else poll again. A failed
/// poll counts as a job still in progress.
pub fn next_step(observed: &Result<ProfileStatus, String>, elapsed_ms: u64, timeout_ms: u64) -> (r: WaitStep)
    ensures
        r == step_of(*observed, elapsed_ms, timeout_ms),
{
    let terminal = match observed {
        Ok(s) => s.is_terminal(),
        Err(_) => false,
    };
    if terminal {
        WaitStep::Finished
    } else if elapsed_ms > timeout_ms {
        WaitStep::TimedOut
    } else {
        WaitStep::PollAgain
    }
}

/// Where a wait ends after a run of polls, each given with what it observed
/// and when it was made; `PollAgain` where the run stops before the wait does.
pub open spec fn outcome_of(polls: Seq<(Result<ProfileStatus, String>, u64)>, timeout_ms: u64) -> WaitStep
    decreases polls.len(),
{
    if polls.len() == 0 {
        WaitStep::PollAgain
    } else {
        match step_of(polls[0].0, polls[0].1, timeout_ms) {
            WaitStep::PollAgain => outcome_of(polls.drop_first(), timeout_ms),
            s => s,
        }
    }
}

/// A poll that saw no terminal status and came before the deadline.
pub open spec fn waiting_poll(poll: (Result<ProfileStatus, String>, u64), timeout_ms: u64) -> bool {
    !observed_terminal(poll.0) && poll.1 <= timeout_ms
}

/// Every poll before `i` saw no terminal status and came before the deadline.
pub open spec fn still_waiting_before(polls: Seq<(Result<ProfileStatus, String>, u64)>, i: int, timeout_ms: u64) -> bool {
    forall|j: int| 0 <= j < i ==> waiting_poll(#[trigger] polls[j], timeout_ms)
}

/// A wait succeeds exactly when some poll sees `Complete` or `Failed` while
/// every earlier poll came before the deadline; it times out exactly when a
/// poll after the deadline sees neither, every earlier poll having seen
/// neither before the deadline.
pub proof fn lemma_wait_outcome(polls: Seq<(Result<ProfileStatus, String>, u64)>, timeout_ms: u64)
    ensures
        (outcome_of(polls, timeout_ms) == WaitStep::Finished) <==> exists|i: int|
            0 <= i < polls.len() && observed_terminal(#[trigger] polls[i].0)
                && still_waiting_before(polls, i, timeout_ms),
        (outcome_of(polls, timeout_ms) == WaitStep::TimedOut) <==> exists|i: int|
            0 <= i < polls.len() && !observed_terminal(#[trigger] polls[i].0) && polls[i].1 > timeout_ms
                && still_waiting_before(polls, i, timeout_ms),
    decreases polls.len(),
{
    if polls.len() > 0 {
        let rest = polls.drop_first();
        lemma_wait_outcome(rest, timeout_ms);
        if observed_terminal(polls[0].0) {
            assert(still_waiting_before(polls, 0, timeout_ms));
            assert(observed_terminal(polls[0].0));
            assert forall|i: int| 0 <= i < polls.len() && still_waiting_before(polls, i, timeout_ms) implies i == 0 by {
                if i > 0 {
                    assert(!observed_terminal(polls[0].0));
                }
            }
        } else if polls[0].1 > timeout_ms {
            assert(still_waiting_before(polls, 0, timeout_ms));
            assert(!observed_terminal(polls[0].0) && polls[0].1 > timeout_ms);
            assert forall|i: int| 0 <= i < polls.len() && still_waiting_before(polls, i, timeout_ms) implies i == 0 by {
                if i > 0 {
                    assert(polls[0].1 <= timeout_ms);
                }
            }
        } else {
            assert forall|i: int| 1 <= i < polls.len() implies
                still_waiting_before(polls, i, timeout_ms) == still_waiting_before(rest, i - 1, timeout_ms) by {
                if still_waiting_before(polls, i, timeout_ms) {
                    assert forall|j: int| 0 <= j < i - 1 implies waiting_poll(#[trigger] rest[j], timeout_ms) by {
                        assert(rest[j] == polls[j + 1]);
                        assert(waiting_poll(polls[j + 1], timeout_ms));
                    }
                }
                if still_waiting_before(rest, i - 1, timeout_ms) {
                    assert forall|j: int| 0 <= j < i implies waiting_poll(#[trigger] polls[j], timeout_ms) by {
                        if j > 0 {
                            assert(polls[j] == rest[j - 1]);
                        }
                    }
                }
            }
            if outcome_of(polls, timeout_ms) == WaitStep::Finished {
                let k = choose|k: int| 0 <= k < rest.len() && observed_terminal(#[trigger] rest[k].0)
                    && still_waiting_before(rest, k, timeout_ms);
                assert(polls[k + 1] == rest[k]);
                assert(observed_terminal(polls[k + 1].0));
            }
            if exists|i: int| 0 <= i < polls.len() && observed_terminal(#[trigger] polls[i].0)
                && still_waiting_before(polls, i, timeout_ms) {
                let i = choose|i: int| 0 <= i < polls.len() && observed_terminal(#[trigger] polls[i].0)
                    && still_waiting_before(polls, i, timeout_ms);
                assert(i > 0);
                assert(rest[i - 1] == polls[i]);
                assert(observed_terminal(rest[i - 1].0));
            }
            if outcome_of(polls, timeout_ms) == WaitStep::TimedOut {
                let k = choose|k: int| 0 <= k < rest.len() && !observed_terminal(#[trigger] rest[k].0)
                    && rest[k].1 > timeout_ms && still_waiting_before(rest, k, timeout_ms);
                assert(polls[k + 1] == rest[k]);
                assert(!observed_terminal(polls[k + 1].0));
            }
            if exists|i: int| 0 <= i < polls.len() && !observed_terminal(#[trigger] polls[i].0)
                && polls[i].1 > timeout_ms && still_waiting_before(polls, i, timeout_ms) {
                let i = choose|i: int| 0 <= i < polls.len() && !observed_terminal(#[trigger] polls[i].0)
                    && polls[i].1 > timeout_ms && still_waiting_before(polls, i, timeout_ms);
                assert(i > 0);
                assert(rest[i - 1] == polls[i]);
                assert(!observed_terminal(rest[i - 1].0));
            }
        }
    }
}

} // verus!
