//! The per-account phase machine: a bootstrap run once, then a claim cycle
//! that repeats for as long as the worker lives.
use vstd::prelude::*;

verus! {

#[derive(Clone, Copy, Debug, PartialEq, Eq, Structural)]
pub enum Phase {
    Bootstrapping,
    Clicking,
    QuestCompleting,
    QuestLotteryDraining,
    Scheduled,
    Claiming,
    SpeedingUp,
    LotterySpinning,
    /// The bootstrap failed: the account never enters its cycle.
    Halted,
}

/// Whether `p` belongs to the repeating claim cycle.
pub open spec fn in_cycle(p: Phase) -> bool {
    p == Phase::Scheduled || p == Phase::Claiming || p == Phase::SpeedingUp || p
        == Phase::LotterySpinning
}

/// The phase after `p`, given whether its work succeeded.
pub open spec fn following(p: Phase, ok: bool) -> Phase {
    match p {
        Phase::Bootstrapping => if ok {
            Phase::Clicking
        } else {
            Phase::Halted
        },
        Phase::Clicking => Phase::QuestCompleting,
        Phase::QuestCompleting => Phase::QuestLotteryDraining,
        Phase::QuestLotteryDraining => Phase::Scheduled,
        Phase::Scheduled => Phase::Claiming,
        Phase::Claiming => Phase::SpeedingUp,
        Phase::SpeedingUp => Phase::LotterySpinning,
        Phase::LotterySpinning => Phase::Scheduled,
        Phase::Halted => Phase::Halted,
    }
}

/// Moves the phase machine on. Only a failed profile fetch while
/// bootstrapping halts the account; failures of later steps, and of any step
/// in the cycle, leave the worker running.
pub fn next_phase(p: Phase, ok: bool) -> (r: Phase)
    ensures
        r == following(p, ok),
        r == Phase::Halted <==> (p == Phase::Halted || (p == Phase::Bootstrapping && !ok)),
        in_cycle(p) ==> in_cycle(r),
{
    match p {
        Phase::Bootstrapping => if ok {
            Phase::Clicking
        } else {
            Phase::Halted
        },
        Phase::Clicking => Phase::QuestCompleting,
        Phase::QuestCompleting => Phase::QuestLotteryDraining,
        Phase::QuestLotteryDraining => Phase::Scheduled,
        Phase::Scheduled => Phase::Claiming,
        Phase::Claiming => Phase::SpeedingUp,
        Phase::SpeedingUp => Phase::LotterySpinning,
        Phase::LotterySpinning => Phase::Scheduled,
        Phase::Halted => Phase::Halted,
    }
}

} // verus!
