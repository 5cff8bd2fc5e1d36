//! Quest completion: which quests the engine completes on its own, and the
//! achieve/claim calls it makes for them.
use crate::calls::Call;
use crate::text::same_text;
use vstd::prelude::*;

verus! {

/// The quest kinds the service lists. All but `Other` can be completed without
/// a person's help.
#[derive(Clone, Copy, Debug, PartialEq, Eq, Structural)]
pub enum QuestKind {
    CarvIosApp,
    CarvAndroidApp,
    RetweetTweet,
    LikeTweet,
    FollowOnTwitter,
    VisitPage,
    TelegramJoinGroup,
    /// Any other kind, e.g. one that asks for a verification code.
    Other,
}

/// The kind that the service's type name stands for.
pub open spec fn kind_named(name: Seq<char>) -> QuestKind {
    if name == "carv_ios_app"@ {
        QuestKind::CarvIosApp
    } else if name == "carv_android_app"@ {
        QuestKind::CarvAndroidApp
    } else if name == "retweet_tweet"@ {
        QuestKind::RetweetTweet
    } else if name == "like_tweet"@ {
        QuestKind::LikeTweet
    } else if name == "follow_on_twitter"@ {
        QuestKind::FollowOnTwitter
    } else if name == "visit_page"@ {
        QuestKind::VisitPage
    } else if name == "telegram_join_group"@ {
        QuestKind::TelegramJoinGroup
    } else {
        QuestKind::Other
    }
}

/// Whether the engine completes quests of this kind by itself.
pub open spec fn auto_completable(kind: QuestKind) -> bool {
    kind != QuestKind::Other
}

impl QuestKind {
    /// The kind for a quest type name as the service spells it.
    pub fn from_name(name: &str) -> (r: QuestKind)
        ensures
            r == kind_named(name@),
    {
        if same_text(name, "carv_ios_app") {
            QuestKind::CarvIosApp
        } else if same_text(name, "carv_android_app") {
            QuestKind::CarvAndroidApp
        } else if same_text(name, "retweet_tweet") {
            QuestKind::RetweetTweet
        } else if same_text(name, "like_tweet") {
            QuestKind::LikeTweet
        } else if same_text(name, "follow_on_twitter") {
            QuestKind::FollowOnTwitter
        } else if same_text(name, "visit_page") {
            QuestKind::VisitPage
        } else if same_text(name, "telegram_join_group") {
            QuestKind::TelegramJoinGroup
        } else {
            QuestKind::Other
        }
    }

    /// Whether the engine completes quests of this kind by itself.
    pub fn is_auto_completable(&self) -> (r: bool)
        ensures
            r == auto_completable(*self),
    {
        !matches!(self, QuestKind::Other)
    }
}

/// One entry of the quest list.
#[derive(Clone, Copy, Debug, PartialEq, Eq, Structural)]
pub struct QuestItem {
    pub quest_id: i64,
    pub kind: QuestKind,
    pub is_achieved: bool,
    pub is_claimed: bool,
}

/// Whether the engine acts on a quest: open, and of a kind it can complete.
pub open spec fn eligible(q: QuestItem) -> bool {
    !q.is_achieved && !q.is_claimed && auto_completable(q.kind)
}

/// The calls a quest pass makes for `items`, in list order: achieve, then
/// claim, for each eligible quest.
pub open spec fn quest_calls(items: Seq<QuestItem>) -> Seq<Call>
    decreases items.len(),
{
    if items.len() == 0 {
        Seq::empty()
    } else {
        let before = quest_calls(items.drop_last());
        let q = items.last();
        if eligible(q) {
            before.push(Call::AchieveQuest(q.quest_id)).push(Call::ClaimQuest(q.quest_id))
        } else {
            before
        }
    }
}

/// Whether `call` is an achieve or claim call for the quest with `id`.
pub open spec fn names_quest(call: Call, id: i64) -> bool {
    call == Call::AchieveQuest(id) || call == Call::ClaimQuest(id)
}

/// Every call of a quest pass is an achieve or claim call for an eligible
/// quest of the list; so an achieved, claimed or manual quest whose id no
/// eligible quest shares never draws a call.
pub proof fn lemma_calls_only_for_eligible(items: Seq<QuestItem>)
    ensures
        forall|k: int|
            0 <= k < quest_calls(items).len() ==> exists|i: int|
                0 <= i < items.len() && eligible(items[i]) && names_quest(
                    #[trigger] quest_calls(items)[k],
                    items[i].quest_id,
                ),
    decreases items.len(),
{
    if items.len() > 0 {
        let init = items.drop_last();
        lemma_calls_only_for_eligible(init);
        let calls = quest_calls(items);
        let before = quest_calls(init);
        assert forall|k: int| 0 <= k < calls.len() implies exists|i: int|
            0 <= i < items.len() && eligible(items[i]) && names_quest(
                #[trigger] calls[k],
                items[i].quest_id,
            ) by {
            if k < before.len() {
                assert(calls[k] == before[k]);
                let i = choose|i: int|
                    0 <= i < init.len() && eligible(init[i]) && names_quest(
                        before[k],
                        init[i].quest_id,
                    );
                assert(items[i] == init[i]);
            } else {
                let i = items.len() - 1;
                assert(items[i] == items.last());
            }
        }
    }
}

/// The achieve/claim calls for a fetched quest list.
pub fn plan_quest_calls(items: &Vec<QuestItem>) -> (r: Vec<Call>)
    ensures
        r@ == quest_calls(items@),
{
    let mut calls: Vec<Call> = Vec::new();
    let mut i: usize = 0;
    while i < items.len()
        invariant
            i <= items@.len(),
            calls@ == quest_calls(items@.subrange(0, i as int)),
        decreases items@.len() - i,
    {
        let q = items[i];
        assert(items@.subrange(0, i + 1).drop_last() =~= items@.subrange(0, i as int));
        if !q.is_achieved && !q.is_claimed && q.kind.is_auto_completable() {
            calls.push(Call::AchieveQuest(q.quest_id));
            calls.push(Call::ClaimQuest(q.quest_id));
        }
        i = i + 1;
    }
    assert(items@.subrange(0, items@.len() as int) =~= items@);
    calls
}

} // verus!
