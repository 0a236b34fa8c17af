//! Decisions of the readiness wait: the intro overlay must appear, then the
//! loading spinner is polled until it is gone.
use crate::error::PipelineError;
use vstd::prelude::*;

verus! {

/// What the driver does after a check of the loading spinner.
#[derive(Debug, Clone, Copy, PartialEq, Eq, Structural)]
pub enum ReadinessAction {
    /// The spinner is still there: pause for the poll interval, then check again.
    WaitAndPoll,
    /// The spinner is gone: capture may start.
    Ready,
    /// The spinner stayed through the most checks allowed.
    GiveUp,
}

/// The outcome owed once the wait for the intro overlay has ended: found, it
/// is clicked and the wait goes on; never found, the run fails.
pub fn overlay_outcome(found: bool) -> (r: Result<(), PipelineError>)
    ensures
        found ==> r is Ok,
        !found ==> r == Err::<(), PipelineError>(PipelineError::ReadinessTimeout),
{
    if found {
        Ok(())
    } else {
        Err(PipelineError::ReadinessTimeout)
    }
}

/// One check of the spinner, from `polls` pauses taken so far under the bound
/// `max`: the pauses then taken and the action. Without a bound the count
/// stops growing at the largest `u64`, and the wait goes on.
pub open spec fn spinner_step(polls: u64, max: Option<u64>, present: bool) -> (u64, ReadinessAction) {
    if !present {
        (polls, ReadinessAction::Ready)
    } else {
        match max {
            Some(m) => if polls >= m {
                (polls, ReadinessAction::GiveUp)
            } else {
                ((polls + 1) as u64, ReadinessAction::WaitAndPoll)
            },
            None => (if polls < u64::MAX { (polls + 1) as u64 } else { polls }, ReadinessAction::WaitAndPoll),
        }
    }
}

/// State of the spinner wait.
pub struct ReadinessDetector {
    /// Pauses taken so far.
    pub polls: u64,
    /// Most pauses allowed; `None` waits without bound.
    pub max_polls: Option<u64>,
}

impl ReadinessDetector {
    /// A wait that has taken no pause yet.
    pub fn new(max_polls: Option<u64>) -> (r: Self)
        ensures
            r.polls == 0,
            r.max_polls == max_polls,
    {
        ReadinessDetector { polls: 0, max_polls }
    }

    /// Decides from one check of the spinner whether to wait, start, or give up.
    pub fn on_spinner(&mut self, present: bool) -> (r: ReadinessAction)
        ensures
            (final(self).polls, r) == spinner_step(old(self).polls, old(self).max_polls, present),
            final(self).max_polls == old(self).max_polls,
    {
        if !present {
            return ReadinessAction::Ready;
        }
        match self.max_polls {
            Some(m) => {
                if self.polls >= m {
                    ReadinessAction::GiveUp
                } else {
                    self.polls = self.polls + 1;
                    ReadinessAction::WaitAndPoll
                }
            },
            None => {
                if self.polls < u64::MAX {
                    self.polls = self.polls + 1;
                }
                ReadinessAction::WaitAndPoll
            },
        }
    }
}

/// The pauses taken after `k` checks that all saw the spinner, from none.
pub open spec fn polls_after(max: Option<u64>, k: nat) -> u64
    decreases k,
{
    if k == 0 {
        0
    } else {
        spinner_step(polls_after(max, (k - 1) as nat), max, true).0
    }
}

/// With a spinner that clears after `k` checks, and no bound below `k`, the
/// wait answers "wait and poll" to each of the first `k` checks, has then
/// taken exactly `k` pauses, and is ready at the next check, not before.
pub proof fn lemma_ready_after_exactly_k_polls(max: Option<u64>, k: nat)
    requires
        k < u64::MAX,
        max is None || k <= max->Some_0,
    ensures
        forall|j: nat| j < k ==> (#[trigger] spinner_step(polls_after(max, j), max, true)).1
            == ReadinessAction::WaitAndPoll,
        polls_after(max, k) == k,
        spinner_step(polls_after(max, k), max, false).1 == ReadinessAction::Ready,
{
    lemma_polls_count(max, k);
    assert forall|j: nat| j < k implies (#[trigger] spinner_step(polls_after(max, j), max, true)).1
        == ReadinessAction::WaitAndPoll by {
        lemma_polls_count(max, j);
    }
}

/// Without a bound, a spinner that never clears is waited on forever: every
/// check answers "wait and poll".
pub proof fn lemma_unbounded_wait_never_returns(k: nat)
    ensures
        spinner_step(polls_after(None, k), None, true).1 == ReadinessAction::WaitAndPoll,
{
}

proof fn lemma_polls_count(max: Option<u64>, k: nat)
    requires
        k < u64::MAX,
        max is None || k <= max->Some_0,
    ensures
        polls_after(max, k) == k,
    decreases k,
{
    if k > 0 {
        lemma_polls_count(max, (k - 1) as nat);
    }
}

} // verus!
