//! The lottery pass of each cycle: spin while spins remain; after each prize,
//! share it and then claim the spin's ad income, in that order.
use crate::calls::{Call, AD_INCOME_AFTER_SPIN};
use crate::client::BananaErr;
use vstd::prelude::*;

verus! {

/// Where a lottery pass stands.
#[derive(Clone, Copy, Debug, PartialEq, Eq, Structural)]
pub enum LotteryStage {
    Spin,
    Share(i64),
    ClaimIncome,
    Done,
}

/// The answer to the pass's last call.
#[derive(Clone, Copy, Debug, PartialEq, Eq, Structural)]
pub enum Reply {
    /// The spin succeeded and drew the prize with this id.
    Prize(i64),
    /// The call went through.
    Done,
    /// The call failed or the service rejected it.
    Failed,
}

/// State of one lottery pass.
#[derive(Clone, Copy, Debug, PartialEq, Eq, Structural)]
pub struct LotteryPass {
    pub spins_left: i64,
    pub stage: LotteryStage,
}

/// The stage that follows `stage` on `reply`, with `spins_left` spins left.
pub open spec fn next_stage(stage: LotteryStage, spins_left: int, reply: Reply) -> LotteryStage {
    match (stage, reply) {
        (LotteryStage::Spin, Reply::Prize(id)) => LotteryStage::Share(id),
        (LotteryStage::Share(_), Reply::Failed) => LotteryStage::Done,
        (LotteryStage::Share(_), _) => LotteryStage::ClaimIncome,
        (LotteryStage::ClaimIncome, Reply::Failed) => LotteryStage::Done,
        (LotteryStage::ClaimIncome, _) => if spins_left > 1 {
            LotteryStage::Spin
        } else {
            LotteryStage::Done
        },
        _ => LotteryStage::Done,
    }
}

/// The call a pass makes in `stage`.
pub open spec fn stage_call(stage: LotteryStage) -> Option<Call> {
    match stage {
        LotteryStage::Spin => Some(Call::Lottery),
        LotteryStage::Share(id) => Some(Call::Share(id)),
        LotteryStage::ClaimIncome => Some(Call::ClaimAdsIncome(2)),
        LotteryStage::Done => None,
    }
}

impl LotteryPass {
    /// The pass a profile reporting `remain_lottery_count` spins starts with.
    pub open spec fn new_spec(remain_lottery_count: i32) -> LotteryPass {
        LotteryPass {
            spins_left: remain_lottery_count as i64,
            stage: if remain_lottery_count > 0 {
                LotteryStage::Spin
            } else {
                LotteryStage::Done
            },
        }
    }

    /// A pass over the spins a fresh profile reports; none when it reports none.
    pub fn new(remain_lottery_count: i32) -> (r: LotteryPass)
        ensures
            r == LotteryPass::new_spec(remain_lottery_count),
            r.spins_left == remain_lottery_count,
            r.stage == (if remain_lottery_count > 0 {
                LotteryStage::Spin
            } else {
                LotteryStage::Done
            }),
    {
        LotteryPass {
            spins_left: remain_lottery_count as i64,
            stage: if remain_lottery_count > 0 {
                LotteryStage::Spin
            } else {
                LotteryStage::Done
            },
        }
    }

    /// The call to make now, `None` once the pass is over.
    pub fn call(&self) -> (r: Option<Call>)
        ensures
            r == stage_call(self.stage),
    {
        match self.stage {
            LotteryStage::Spin => Some(Call::Lottery),
            LotteryStage::Share(id) => Some(Call::Share(id)),
            LotteryStage::ClaimIncome => Some(Call::ClaimAdsIncome(AD_INCOME_AFTER_SPIN)),
            LotteryStage::Done => None,
        }
    }

    /// Moves on with the answer to the call just made. A prize is shared, the
    /// share is followed by the spin's ad-income claim, and that claim by the
    /// next spin while spins remain; a failed spin, share or claim ends the pass.
    pub fn advance(&mut self, reply: Reply)
        requires
            old(self).spins_left >= 1 || old(self).stage == LotteryStage::Done,
        ensures
            final(self).stage == next_stage(
                old(self).stage,
                old(self).spins_left as int,
                reply,
            ),
            final(self).spins_left == if old(self).stage == LotteryStage::ClaimIncome
                && reply != Reply::Failed {
                old(self).spins_left - 1
            } else {
                old(self).spins_left as int
            },
            final(self).spins_left >= 1 || final(self).stage == LotteryStage::Done,
    {
        match (self.stage, reply) {
            (LotteryStage::Spin, Reply::Prize(id)) => {
                self.stage = LotteryStage::Share(id);
            },
            (LotteryStage::Share(_), Reply::Failed) => {
                self.stage = LotteryStage::Done;
            },
            (LotteryStage::Share(_), _) => {
                self.stage = LotteryStage::ClaimIncome;
            },
            (LotteryStage::ClaimIncome, Reply::Failed) => {
                self.stage = LotteryStage::Done;
            },
            (LotteryStage::ClaimIncome, _) => {
                self.stage = if self.spins_left > 1 {
                    LotteryStage::Spin
                } else {
                    LotteryStage::Done
                };
                self.spins_left = self.spins_left - 1;
            },
            _ => {
                self.stage = LotteryStage::Done;
            },
        }
    }
}

/// How the outcome of a pass's call becomes its reply. `outcome` is the
/// call's result, with the prize id a spin reported, if any. A spin counts only
/// when it succeeded and named a prize. A share or ad-income claim that the
/// service rejected does not end the pass; one that failed in transport does.
pub open spec fn reply_for(call: Call, outcome: Result<Option<i64>, BananaErr>) -> Reply {
    if call == Call::Lottery {
        match outcome {
            Ok(Some(id)) => Reply::Prize(id),
            _ => Reply::Failed,
        }
    } else {
        match outcome {
            Ok(_) => Reply::Done,
            Err(e) => if e == BananaErr::TransportFailed {
                Reply::Failed
            } else {
                Reply::Done
            },
        }
    }
}

/// The reply to feed to `LotteryPass::advance` for the outcome of `call`.
pub fn reply_of(call: Call, outcome: Result<Option<i64>, BananaErr>) -> (r: Reply)
    ensures
        r == reply_for(call, outcome),
{
    match call {
        Call::Lottery => match outcome {
            Ok(Some(id)) => Reply::Prize(id),
            _ => Reply::Failed,
        },
        _ => match outcome {
            Ok(_) => Reply::Done,
            Err(BananaErr::TransportFailed) => Reply::Failed,
            Err(_) => Reply::Done,
        },
    }
}

/// Within a pass, the call after a prize is the share of that prize, and the
/// call after a share that went through is the spin's ad-income claim.
pub proof fn lemma_share_then_claim(stage: LotteryStage, spins_left: int, reply: Reply)
    ensures
        stage == LotteryStage::Spin && reply is Prize ==> stage_call(
            next_stage(stage, spins_left, reply),
        ) == Some(Call::Share(reply->Prize_0)),
        stage is Share && reply != Reply::Failed ==> stage_call(
            next_stage(stage, spins_left, reply),
        ) == Some(Call::ClaimAdsIncome(2)),
        stage == LotteryStage::Spin && !(reply is Prize) ==> next_stage(stage, spins_left, reply)
            == LotteryStage::Done,
{
}

} // verus!
