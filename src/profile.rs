//! The profile snapshot the service reports, and what the engine derives from it.
use crate::calls::{Call, AD_INCOME_AFTER_SPEEDUP};
use crate::client::BananaErr;
use crate::clicks::ClickPass;
use crate::lottery::LotteryPass;
use crate::schedule::{can_claim_at, claim_delay, claim_delay_ms, remaining_countdown_ms};
use vstd::prelude::*;

verus! {

/// The countdown and spin counters of a profile.
#[derive(Clone, Copy, Debug, PartialEq, Eq, Structural)]
pub struct LotteryInfo {
    pub countdown_end: bool,
    pub countdown_interval: i32,
    pub last_countdown_start_time: i64,
    pub remain_lottery_count: i32,
}

/// A profile as fetched; used at once and never kept.
pub struct Profile {
    pub username: String,
    pub lottery_info: LotteryInfo,
    pub max_click_count: i32,
    pub today_click_count: i32,
}

impl Profile {
    /// The click pass this profile calls for.
    pub fn click_pass(&self) -> (r: ClickPass)
        ensures
            r.remaining == self.max_click_count - self.today_click_count,
    {
        ClickPass::new(self.max_click_count, self.today_click_count)
    }

    /// The lottery pass this profile calls for.
    pub fn lottery_pass(&self) -> (r: LotteryPass)
        ensures
            r == LotteryPass::new_spec(self.lottery_info.remain_lottery_count),
    {
        LotteryPass::new(self.lottery_info.remain_lottery_count)
    }

    /// Milliseconds to wait at `now` before the first claim.
    pub fn first_claim_delay_ms(&self, now: i64) -> (r: u128)
        ensures
            r == claim_delay(
                self.lottery_info.last_countdown_start_time as int,
                self.lottery_info.countdown_interval as int,
                now as int,
            ),
    {
        claim_delay_ms(
            self.lottery_info.last_countdown_start_time,
            self.lottery_info.countdown_interval,
            now,
        )
    }
}

/// What follows a speed-up attempt.
pub struct SpeedUpResult {
    /// The countdown left, in milliseconds, when the speed-up was granted.
    pub remaining_ms: Option<i128>,
    /// The call to make next: the speed-up's ad-income claim when it was granted.
    pub follow_up: Option<Call>,
}

/// Interprets the answer to a speed-up: when the service granted it, the
/// countdown left is taken from the timer it reports back (not from any
/// earlier profile), and the speed-up's ad income is claimed; otherwise no
/// speed-up is available this cycle.
pub fn after_speedup(reply: Result<LotteryInfo, BananaErr>, now: i64) -> (r: SpeedUpResult)
    ensures
        match reply {
            Ok(info) => r.remaining_ms == Some(
                (can_claim_at(
                    info.last_countdown_start_time as int,
                    info.countdown_interval as int,
                ) - now) as i128,
            ) && r.follow_up == Some(Call::ClaimAdsIncome(1)),
            Err(_) => r.remaining_ms is None && r.follow_up is None,
        },
{
    match reply {
        Ok(info) => SpeedUpResult {
            remaining_ms: Some(
                remaining_countdown_ms(
                    info.last_countdown_start_time,
                    info.countdown_interval,
                    now,
                ),
            ),
            follow_up: Some(Call::ClaimAdsIncome(AD_INCOME_AFTER_SPEEDUP)),
        },
        Err(_) => SpeedUpResult { remaining_ms: None, follow_up: None },
    }
}

} // verus!
