//! The remote actions an account engine asks its session client to perform.
use vstd::prelude::*;

verus! {

/// Ad-income kind claimed after a finished click pass.
pub const AD_INCOME_AFTER_CLICKS: u8 = 0;

/// Ad-income kind claimed after a granted speed-up.
pub const AD_INCOME_AFTER_SPEEDUP: u8 = 1;

/// Ad-income kind claimed after each lottery spin.
pub const AD_INCOME_AFTER_SPIN: u8 = 2;

/// One remote action of the service.
#[derive(Clone, Copy, Debug, PartialEq, Eq, Structural)]
pub enum Call {
    Profile,
    Click(i64),
    ClaimDaily,
    ListQuests,
    AchieveQuest(i64),
    ClaimQuest(i64),
    Lottery,
    Share(i64),
    ClaimAdsIncome(u8),
    QuestLotteryStatus,
    ClaimQuestLottery,
    SpeedUp,
}

/// Address of the login endpoint, the one call made without a session.
pub const LOGIN_URL: &'static str = "https://interface.carv.io/banana/login";

/// The endpoint that serves a call.
pub open spec fn endpoint_of(call: Call) -> Seq<char> {
    match call {
        Call::Profile => "https://interface.carv.io/banana/get_user_info"@,
        Call::Click(_) => "https://interface.carv.io/banana/do_click"@,
        Call::ClaimDaily => "https://interface.carv.io/banana/claim_lottery"@,
        Call::ListQuests => "https://interface.carv.io/banana/get_quest_list"@,
        Call::AchieveQuest(_) => "https://interface.carv.io/banana/achieve_quest"@,
        Call::ClaimQuest(_) => "https://interface.carv.io/banana/claim_quest"@,
        Call::Lottery => "https://interface.carv.io/banana/do_lottery"@,
        Call::Share(_) => "https://interface.carv.io/banana/do_share"@,
        Call::ClaimAdsIncome(_) => "https://interface.carv.io/banana/claim_ads_income"@,
        Call::QuestLotteryStatus => "https://interface.carv.io/banana/get_quest_list"@,
        Call::ClaimQuestLottery => "https://interface.carv.io/banana/claim_quest_lottery"@,
        Call::SpeedUp => "https://interface.carv.io/banana/do_speedup"@,
    }
}

/// Whether a call only reads (an HTTP GET); every other call posts a body.
pub open spec fn reads_only(call: Call) -> bool {
    call == Call::Profile || call == Call::ListQuests || call == Call::QuestLotteryStatus
}

impl Call {
    /// The endpoint that serves this call.
    pub fn endpoint(&self) -> (r: &'static str)
        ensures
            r@ == endpoint_of(*self),
    {
        match self {
            Call::Profile => "https://interface.carv.io/banana/get_user_info",
            Call::Click(_) => "https://interface.carv.io/banana/do_click",
            Call::ClaimDaily => "https://interface.carv.io/banana/claim_lottery",
            Call::ListQuests => "https://interface.carv.io/banana/get_quest_list",
            Call::AchieveQuest(_) => "https://interface.carv.io/banana/achieve_quest",
            Call::ClaimQuest(_) => "https://interface.carv.io/banana/claim_quest",
            Call::Lottery => "https://interface.carv.io/banana/do_lottery",
            Call::Share(_) => "https://interface.carv.io/banana/do_share",
            Call::ClaimAdsIncome(_) => "https://interface.carv.io/banana/claim_ads_income",
            Call::QuestLotteryStatus => "https://interface.carv.io/banana/get_quest_list",
            Call::ClaimQuestLottery => "https://interface.carv.io/banana/claim_quest_lottery",
            Call::SpeedUp => "https://interface.carv.io/banana/do_speedup",
        }
    }

    /// Whether this call is an HTTP GET.
    pub fn is_get(&self) -> (r: bool)
        ensures
            r == reads_only(*self),
    {
        matches!(self, Call::Profile | Call::ListQuests | Call::QuestLotteryStatus)
    }
}

} // verus!
