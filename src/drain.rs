//! Draining queued quest-lottery claims: claim while the service says one is
//! waiting, stop at the first answer that does not.
use vstd::prelude::*;

verus! {

/// What the drain does after a poll.
#[derive(Clone, Copy, Debug, PartialEq, Eq, Structural)]
pub enum DrainStep {
    /// Claim the waiting lottery, pause, and poll again.
    Claim,
    /// Stop polling.
    Stop,
}

/// State of a drain.
pub struct QuestLotteryDrain {
    pub finished: bool,
}

/// The steps a drain that starts in `finished` takes for a run of poll
/// answers (`None` is a failed poll).
pub open spec fn drain_steps(finished: bool, polls: Seq<Option<bool>>) -> Seq<DrainStep>
    decreases polls.len(),
{
    if polls.len() == 0 {
        Seq::empty()
    } else {
        let claim = !finished && polls[0] == Some(true);
        let step = if claim { DrainStep::Claim } else { DrainStep::Stop };
        seq![step] + drain_steps(!claim, polls.drop_first())
    }
}

/// Whether every poll answer before `i` reported a waiting claim.
pub open spec fn all_waiting_before(polls: Seq<Option<bool>>, i: int) -> bool {
    forall|j: int| 0 <= j < i ==> polls[j] == Some(true)
}

impl QuestLotteryDrain {
    pub fn new() -> (r: QuestLotteryDrain)
        ensures
            !r.finished,
    {
        QuestLotteryDrain { finished: false }
    }

    /// Decides on a poll answer: `Some(true)` is a waiting claim, `Some(false)`
    /// none, `None` a failed poll.
    pub fn on_poll(&mut self, status: Option<bool>) -> (r: DrainStep)
        ensures
            r == (if !old(self).finished && status == Some(true) {
                DrainStep::Claim
            } else {
                DrainStep::Stop
            }),
            final(self).finished == (r == DrainStep::Stop),
    {
        if !self.finished && status == Some(true) {
            DrainStep::Claim
        } else {
            self.finished = true;
            DrainStep::Stop
        }
    }
}

/// A fresh drain claims at a poll exactly when that poll and every one before
/// it reported a waiting claim: once the service says none is waiting, or a
/// poll fails, no claim follows, whatever later polls would say.
pub proof fn lemma_drain_claims_prefix(polls: Seq<Option<bool>>)
    ensures
        drain_steps(false, polls).len() == polls.len(),
        forall|i: int|
            0 <= i < polls.len() ==> (#[trigger] drain_steps(false, polls)[i] == DrainStep::Claim
                <==> all_waiting_before(polls, i + 1)),
    decreases polls.len(),
{
    lemma_finished_drain_stops(polls);
    if polls.len() > 0 {
        let rest = polls.drop_first();
        let steps = drain_steps(false, polls);
        if polls[0] == Some(true) {
            lemma_drain_claims_prefix(rest);
            assert forall|i: int| 0 <= i < polls.len() implies (#[trigger] steps[i]
                == DrainStep::Claim <==> all_waiting_before(polls, i + 1)) by {
                if i > 0 {
                    assert(steps[i] == drain_steps(false, rest)[i - 1]);
                    if all_waiting_before(rest, i) {
                        assert forall|j: int| 0 <= j < i + 1 implies polls[j] == Some(true) by {
                            if j > 0 {
                                assert(polls[j] == rest[j - 1]);
                            }
                        }
                    }
                    if all_waiting_before(polls, i + 1) {
                        assert forall|j: int| 0 <= j < i implies rest[j] == Some(true) by {
                            assert(rest[j] == polls[j + 1]);
                        }
                    }
                }
            }
        } else {
            lemma_finished_drain_stops(rest);
            assert forall|i: int| 0 <= i < polls.len() implies (#[trigger] steps[i]
                == DrainStep::Claim <==> all_waiting_before(polls, i + 1)) by {
                if i > 0 {
                    assert(steps[i] == drain_steps(true, rest)[i - 1]);
                }
                assert(!(polls[0] == Some(true)));
            }
        }
    }
}

/// A finished drain only stops.
pub proof fn lemma_finished_drain_stops(polls: Seq<Option<bool>>)
    ensures
        drain_steps(true, polls).len() == polls.len(),
        forall|i: int| 0 <= i < polls.len() ==> #[trigger] drain_steps(true, polls)[i] == DrainStep::Stop,
    decreases polls.len(),
{
    if polls.len() > 0 {
        lemma_finished_drain_stops(polls.drop_first());
        let steps = drain_steps(true, polls);
        assert forall|i: int| 0 <= i < polls.len() implies #[trigger] steps[i] == DrainStep::Stop by {
            if i > 0 {
                assert(steps[i] == drain_steps(true, polls.drop_first())[i - 1]);
            }
        }
    }
}

} // verus!
