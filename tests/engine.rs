use banana::calls::Call;
use banana::client::{bearer, classify, BananaErr};
use banana::clicks::{ClickPass, ClickStep};
use banana::config::{Roster, Setup, User};
use banana::drain::{DrainStep, QuestLotteryDrain};
use banana::lottery::{reply_of, LotteryPass, LotteryStage, Reply};
use banana::phase::{next_phase, Phase};
use banana::profile::{after_speedup, LotteryInfo, Profile};
use banana::quests::{plan_quest_calls, QuestItem, QuestKind};
use banana::schedule::{
    claim_delay_ms, next_claim_at, next_cycle_delay_secs, remaining_countdown_ms,
    DEFAULT_SPEEDUP_FALLBACK_SECS,
};

#[test]
fn claim_delay_pads_remaining_countdown() {
    // countdown started at 1_000_000 for 60 minutes: ends at 4_600_000
    assert_eq!(next_claim_at(1_000_000, 60), 4_600_000);
    assert_eq!(claim_delay_ms(1_000_000, 60, 4_000_000), 601_000);
    assert_eq!(remaining_countdown_ms(1_000_000, 60, 4_000_000), 600_000);
}

#[test]
fn claim_delay_is_pad_once_countdown_ended() {
    assert_eq!(claim_delay_ms(1_000_000, 60, 4_600_000), 1000);
    assert_eq!(claim_delay_ms(1_000_000, 60, 9_000_000), 1000);
    assert_eq!(claim_delay_ms(1_000_000, 60, 4_599_999), 1001);
}

#[test]
fn claim_delay_extreme_inputs() {
    let d = claim_delay_ms(i64::MAX, i32::MAX, i64::MIN);
    assert!(d > u64::MAX as u128);
    assert_eq!(claim_delay_ms(i64::MIN, i32::MIN, i64::MAX), 1000);
}

#[test]
fn cycle_delay_after_speedup() {
    assert_eq!(next_cycle_delay_secs(Some(25_000), DEFAULT_SPEEDUP_FALLBACK_SECS), 35);
    assert_eq!(next_cycle_delay_secs(Some(25_999), DEFAULT_SPEEDUP_FALLBACK_SECS), 35);
    assert_eq!(next_cycle_delay_secs(Some(-5_500), DEFAULT_SPEEDUP_FALLBACK_SECS), 5);
    assert_eq!(next_cycle_delay_secs(Some(-20_000), DEFAULT_SPEEDUP_FALLBACK_SECS), 0);
    assert_eq!(next_cycle_delay_secs(None, DEFAULT_SPEEDUP_FALLBACK_SECS), 8 * 3600 + 10);
    assert_eq!(next_cycle_delay_secs(None, 60), 70);
}

#[test]
fn click_pass_of_five_then_income_claim() {
    let profile = Profile {
        username: "alice".to_string(),
        lottery_info: LotteryInfo {
            countdown_end: false,
            countdown_interval: 60,
            last_countdown_start_time: 0,
            remain_lottery_count: 0,
        },
        max_click_count: 50,
        today_click_count: 45,
    };
    let mut pass = profile.click_pass();
    let mut batches = Vec::new();
    loop {
        match pass.next_step() {
            ClickStep::Batch(b) => {
                batches.push(b);
                assert_eq!(pass.on_reply(b, Ok(())), Ok(()));
            }
            ClickStep::Finish(call) => {
                assert_eq!(call, Call::ClaimAdsIncome(0));
                break;
            }
        }
    }
    assert_eq!(batches, vec![5]);
}

#[test]
fn accepted_click_batches_sum_to_remaining() {
    for &(max, today) in &[(1000, 0), (57, 20), (11, 0), (10, 0), (1, 0)] {
        let mut pass = ClickPass::new(max, today);
        let start = pass.remaining;
        let mut sum = 0i64;
        let mut last = 0i64;
        while let ClickStep::Batch(b) = pass.next_step() {
            if pass.remaining > 10 {
                assert!(b >= 10 && b < pass.remaining);
            } else {
                assert_eq!(b, pass.remaining);
            }
            pass.on_reply(b, Ok(())).unwrap();
            sum += b;
            last = b;
        }
        assert_eq!(sum, start);
        assert!(last >= 1 && last <= 10);
    }
}

#[test]
fn click_pass_with_nothing_left() {
    let pass = ClickPass::new(50, 50);
    assert_eq!(pass.next_step(), ClickStep::Finish(Call::ClaimAdsIncome(0)));
    let pass = ClickPass::new(50, 60);
    assert_eq!(pass.remaining, -10);
    assert_eq!(pass.next_step(), ClickStep::Finish(Call::ClaimAdsIncome(0)));
}

#[test]
fn click_batch_for_draw() {
    let pass = ClickPass::new(30, 0);
    assert_eq!(pass.batch_for_draw(17), 17);
    let pass = ClickPass::new(30, 22);
    assert_eq!(pass.batch_for_draw(0), 8);
}

#[test]
fn click_rejection_keeps_remaining_and_transport_aborts() {
    let mut pass = ClickPass::new(8, 0);
    assert_eq!(pass.on_reply(8, Err(BananaErr::ApiRejected(3, "busy".to_string()))), Ok(()));
    assert_eq!(pass.remaining, 8);
    assert_eq!(pass.on_reply(8, Err(BananaErr::TransportFailed)), Err(BananaErr::ClickAborted));
    assert_eq!(pass.remaining, 8);
}

#[test]
fn quest_kinds_by_name() {
    assert_eq!(QuestKind::from_name("carv_ios_app"), QuestKind::CarvIosApp);
    assert_eq!(QuestKind::from_name("carv_android_app"), QuestKind::CarvAndroidApp);
    assert_eq!(QuestKind::from_name("retweet_tweet"), QuestKind::RetweetTweet);
    assert_eq!(QuestKind::from_name("like_tweet"), QuestKind::LikeTweet);
    assert_eq!(QuestKind::from_name("follow_on_twitter"), QuestKind::FollowOnTwitter);
    assert_eq!(QuestKind::from_name("visit_page"), QuestKind::VisitPage);
    assert_eq!(QuestKind::from_name("telegram_join_group"), QuestKind::TelegramJoinGroup);
    assert_eq!(QuestKind::from_name("enter_code"), QuestKind::Other);
    assert_eq!(QuestKind::from_name("visit_pag"), QuestKind::Other);
    assert_eq!(QuestKind::from_name(""), QuestKind::Other);
    assert!(!QuestKind::Other.is_auto_completable());
    assert!(QuestKind::VisitPage.is_auto_completable());
}

fn quest(id: i64, kind: QuestKind, achieved: bool, claimed: bool) -> QuestItem {
    QuestItem { quest_id: id, kind, is_achieved: achieved, is_claimed: claimed }
}

#[test]
fn quest_calls_only_for_open_recognized_quests() {
    let items = vec![
        quest(1, QuestKind::LikeTweet, false, false),
        quest(2, QuestKind::Other, false, false),
        quest(3, QuestKind::VisitPage, true, false),
        quest(4, QuestKind::VisitPage, false, true),
        quest(5, QuestKind::TelegramJoinGroup, false, false),
    ];
    assert_eq!(
        plan_quest_calls(&items),
        vec![
            Call::AchieveQuest(1),
            Call::ClaimQuest(1),
            Call::AchieveQuest(5),
            Call::ClaimQuest(5)
        ]
    );
    assert_eq!(plan_quest_calls(&Vec::new()), Vec::<Call>::new());
}

#[test]
fn quest_lottery_drain_true_true_false() {
    let mut drain = QuestLotteryDrain::new();
    let mut claims = 0;
    let mut polls = 0;
    for status in [Some(true), Some(true), Some(false), Some(true)] {
        polls += 1;
        match drain.on_poll(status) {
            DrainStep::Claim => claims += 1,
            DrainStep::Stop => break,
        }
    }
    assert_eq!(claims, 2);
    assert_eq!(polls, 3);
    assert!(drain.finished);
    assert_eq!(drain.on_poll(Some(true)), DrainStep::Stop);
}

#[test]
fn quest_lottery_drain_stops_on_failed_poll() {
    let mut drain = QuestLotteryDrain::new();
    assert_eq!(drain.on_poll(None), DrainStep::Stop);
    assert_eq!(drain.on_poll(Some(true)), DrainStep::Stop);
}

#[test]
fn two_spins_share_then_claim_in_order() {
    let mut pass = LotteryPass::new(2);
    let mut calls = Vec::new();
    let mut prize = 100;
    while let Some(call) = pass.call() {
        calls.push(call);
        let reply = match call {
            Call::Lottery => {
                prize += 1;
                Reply::Prize(prize)
            }
            _ => Reply::Done,
        };
        pass.advance(reply);
    }
    assert_eq!(
        calls,
        vec![
            Call::Lottery,
            Call::Share(101),
            Call::ClaimAdsIncome(2),
            Call::Lottery,
            Call::Share(102),
            Call::ClaimAdsIncome(2)
        ]
    );
    assert_eq!(pass.spins_left, 0);
}

#[test]
fn lottery_stops_on_failed_spin() {
    let mut pass = LotteryPass::new(3);
    assert_eq!(pass.call(), Some(Call::Lottery));
    pass.advance(Reply::Failed);
    assert_eq!(pass.stage, LotteryStage::Done);
    assert_eq!(pass.call(), None);
    assert_eq!(LotteryPass::new(0).call(), None);
    assert_eq!(LotteryPass::new(-1).stage, LotteryStage::Done);
}

#[test]
fn lottery_stops_on_failed_share() {
    let mut pass = LotteryPass::new(2);
    pass.advance(Reply::Prize(7));
    assert_eq!(pass.call(), Some(Call::Share(7)));
    pass.advance(Reply::Failed);
    assert_eq!(pass.call(), None);
}

#[test]
fn phases_in_order() {
    assert_eq!(next_phase(Phase::Bootstrapping, false), Phase::Halted);
    let mut p = Phase::Bootstrapping;
    let mut seen = Vec::new();
    for _ in 0..9 {
        p = next_phase(p, true);
        seen.push(p);
    }
    assert_eq!(
        seen,
        vec![
            Phase::Clicking,
            Phase::QuestCompleting,
            Phase::QuestLotteryDraining,
            Phase::Scheduled,
            Phase::Claiming,
            Phase::SpeedingUp,
            Phase::LotterySpinning,
            Phase::Scheduled,
            Phase::Claiming
        ]
    );
    assert_eq!(next_phase(Phase::Clicking, false), Phase::QuestCompleting);
    assert_eq!(next_phase(Phase::Claiming, false), Phase::SpeedingUp);
    assert_eq!(next_phase(Phase::Halted, true), Phase::Halted);
}

#[test]
fn failed_bootstrap_does_not_block_other_accounts() {
    let mut roster = Roster::new(3);
    for ok in [true, false, true] {
        assert!(roster.has_next());
        roster.record(ok);
    }
    assert!(!roster.has_next());
    assert_eq!(roster.started, vec![0, 2]);
}

#[test]
fn speedup_reply_gives_countdown_and_income_claim() {
    let info = LotteryInfo {
        countdown_end: false,
        countdown_interval: 480,
        last_countdown_start_time: 1_000_000,
        remain_lottery_count: 0,
    };
    let r = after_speedup(Ok(info), 2_000_000);
    assert_eq!(r.remaining_ms, Some(1_000_000 + 480 * 60_000 - 2_000_000));
    assert_eq!(r.follow_up, Some(Call::ClaimAdsIncome(1)));
    let r = after_speedup(Err(BananaErr::ApiRejected(1, "no speed-up left".to_string())), 2_000_000);
    assert_eq!(r.remaining_ms, None);
    assert_eq!(r.follow_up, None);
}

#[test]
fn profile_first_claim_delay() {
    let profile = Profile {
        username: "bob".to_string(),
        lottery_info: LotteryInfo {
            countdown_end: false,
            countdown_interval: 1,
            last_countdown_start_time: 10_000,
            remain_lottery_count: 2,
        },
        max_click_count: 0,
        today_click_count: 0,
    };
    assert_eq!(profile.first_claim_delay_ms(20_000), 51_000);
    assert_eq!(profile.lottery_pass().spins_left, 2);
}

#[test]
fn classify_answers() {
    assert_eq!(classify(true, Some(0), ""), Ok(()));
    assert_eq!(
        classify(true, Some(12), "too fast"),
        Err(BananaErr::ApiRejected(12, "too fast".to_string()))
    );
    assert_eq!(classify(true, None, "x"), Err(BananaErr::TransportFailed));
    assert_eq!(classify(false, Some(0), "x"), Err(BananaErr::TransportFailed));
}

#[test]
fn bearer_header_value() {
    assert_eq!(bearer("abc"), "Bearer abc");
    assert_eq!(bearer(""), "Bearer ");
}

#[test]
fn call_endpoints() {
    assert_eq!(Call::Profile.endpoint(), "https://interface.carv.io/banana/get_user_info");
    assert_eq!(Call::Click(3).endpoint(), "https://interface.carv.io/banana/do_click");
    assert_eq!(Call::QuestLotteryStatus.endpoint(), Call::ListQuests.endpoint());
    assert!(Call::Profile.is_get());
    assert!(!Call::Share(1).is_get());
}

#[test]
fn setup_uses_stored_session() {
    let user = User {
        link: None,
        access_token: Some("tok".to_string()),
        cookie_token: Some("ck".to_string()),
        invite_code: None,
    };
    assert!(user.has_session());
    match user.setup("acc") {
        Ok(Setup::Ready(s)) => {
            assert_eq!(s.account_name, "acc");
            assert_eq!(s.access_token, "tok");
            assert_eq!(s.cookie_token, "ck");
        }
        _ => panic!("expected a ready session"),
    }
}

#[test]
fn setup_logs_in_without_tokens() {
    let user = User {
        link: Some("https://t.me/x#a=b".to_string()),
        access_token: Some("tok".to_string()),
        cookie_token: None,
        invite_code: None,
    };
    match user.setup("acc") {
        Ok(Setup::Login { link, invite_code }) => {
            assert_eq!(link, "https://t.me/x#a=b");
            assert_eq!(invite_code, "");
        }
        _ => panic!("expected a login"),
    }
    let user = User { link: None, access_token: None, cookie_token: None, invite_code: None };
    assert!(matches!(user.setup("acc"), Err(BananaErr::LoginFailed)));
    let fresh = User {
        link: Some("l".to_string()),
        access_token: None,
        cookie_token: None,
        invite_code: Some("INV".to_string()),
    }
    .with_session("t".to_string(), "c".to_string());
    assert!(fresh.has_session());
    assert_eq!(fresh.invite_code, Some("INV".to_string()));
    assert_eq!(fresh.clone().link, Some("l".to_string()));
}

#[test]
fn lottery_replies_from_outcomes() {
    assert_eq!(reply_of(Call::Lottery, Ok(Some(42))), Reply::Prize(42));
    assert_eq!(reply_of(Call::Lottery, Ok(None)), Reply::Failed);
    assert_eq!(
        reply_of(Call::Lottery, Err(BananaErr::ApiRejected(5, "none left".to_string()))),
        Reply::Failed
    );
    assert_eq!(reply_of(Call::Share(1), Ok(None)), Reply::Done);
    assert_eq!(
        reply_of(Call::Share(1), Err(BananaErr::ApiRejected(5, "again".to_string()))),
        Reply::Done
    );
    assert_eq!(reply_of(Call::ClaimAdsIncome(2), Err(BananaErr::TransportFailed)), Reply::Failed);
}
