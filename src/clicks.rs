//! The click pass: spending the day's remaining clicks in randomly sized
//! batches.
use crate::calls::{Call, AD_INCOME_AFTER_CLICKS};
use crate::client::BananaErr;
use rand::Rng;
use vstd::prelude::*;

verus! {

/// A remainder at or below this is submitted as one batch; above it, a batch
/// is drawn from `[SINGLE_BATCH_LIMIT, remaining)`.
pub const SINGLE_BATCH_LIMIT: i64 = 10;

/// Whether `b` is a batch the pass may submit while `remaining` clicks are left.
pub open spec fn legal_batch(remaining: int, b: int) -> bool {
    if remaining <= 10 {
        b == remaining
    } else {
        10 <= b < remaining
    }
}

/// `batches` is a complete pass from `remaining` in which every batch was
/// accepted: each is legal where it was submitted, and the pass ends exactly
/// when nothing is left.
pub open spec fn accepted_pass(remaining: int, batches: Seq<int>) -> bool
    decreases batches.len(),
{
    if batches.len() == 0 {
        remaining <= 0
    } else {
        &&& remaining > 0
        &&& legal_batch(remaining, batches[0])
        &&& accepted_pass(remaining - batches[0], batches.drop_first())
    }
}

/// Sum of a sequence of batch sizes.
pub open spec fn total(batches: Seq<int>) -> int
    decreases batches.len(),
{
    if batches.len() == 0 {
        0
    } else {
        batches[0] + total(batches.drop_first())
    }
}

/// A pass in which every batch is accepted submits exactly the clicks that
/// were left at its start; every batch but the last is at least the single-batch
/// limit, and the last one is the remainder, between 1 and that limit.
pub proof fn lemma_accepted_pass_total(remaining: int, batches: Seq<int>)
    requires
        remaining >= 0,
        accepted_pass(remaining, batches),
    ensures
        total(batches) == remaining,
        remaining > 0 ==> batches.len() > 0 && 1 <= batches.last() <= 10,
        forall|i: int| 0 <= i < batches.len() - 1 ==> batches[i] >= 10,
    decreases batches.len(),
{
    if batches.len() > 0 {
        let rest = batches.drop_first();
        lemma_accepted_pass_total(remaining - batches[0], rest);
        if rest.len() > 0 {
            assert(batches.last() == rest.last());
            assert forall|i: int| 0 <= i < batches.len() - 1 implies batches[i] >= 10 by {
                if i > 0 {
                    assert(batches[i] == rest[i - 1]);
                }
            }
        }
    }
}

/// Relies on rand's `Rng::gen_range` over `thread_rng`: a value drawn from `[lo, hi)`.
#[verifier::external_body]
fn draw_in_range(lo: i64, hi: i64) -> (r: i64)
    requires
        lo < hi,
    ensures
        lo <= r < hi,
{
    rand::thread_rng().gen_range(lo..hi)
}

/// What the click pass asks for next.
#[derive(Clone, Copy, Debug, PartialEq, Eq, Structural)]
pub enum ClickStep {
    /// Submit a batch of this many clicks.
    Batch(i64),
    /// Nothing is left: make this closing call and end the pass.
    Finish(Call),
}

/// State of one click pass.
pub struct ClickPass {
    /// Clicks still to submit.
    pub remaining: i64,
}

impl ClickPass {
    /// A pass over the clicks a profile leaves for today.
    pub fn new(max_click_count: i32, today_click_count: i32) -> (r: ClickPass)
        ensures
            r.remaining == max_click_count - today_click_count,
    {
        ClickPass { remaining: max_click_count as i64 - today_click_count as i64 }
    }

    /// The batch size for a given draw: the remainder when it is small,
    /// otherwise the draw, which must lie in `[SINGLE_BATCH_LIMIT, remaining)`.
    pub fn batch_for_draw(&self, draw: i64) -> (r: i64)
        requires
            self.remaining > 0,
            self.remaining > 10 ==> 10 <= draw < self.remaining,
        ensures
            legal_batch(self.remaining as int, r as int),
            self.remaining <= 10 ==> r == self.remaining,
            self.remaining > 10 ==> r == draw,
    {
        if self.remaining <= SINGLE_BATCH_LIMIT {
            self.remaining
        } else {
            draw
        }
    }

    /// The next step of the pass; a batch size above the limit is drawn at random.
    pub fn next_step(&self) -> (r: ClickStep)
        ensures
            self.remaining <= 0 ==> r == ClickStep::Finish(Call::ClaimAdsIncome(0)),
            self.remaining > 0 ==> r is Batch,
            r matches ClickStep::Batch(b) ==> self.remaining > 0 && legal_batch(
                self.remaining as int,
                b as int,
            ),
    {
        if self.remaining <= 0 {
            ClickStep::Finish(Call::ClaimAdsIncome(AD_INCOME_AFTER_CLICKS))
        } else if self.remaining <= SINGLE_BATCH_LIMIT {
            ClickStep::Batch(self.batch_for_draw(0))
        } else {
            let draw = draw_in_range(SINGLE_BATCH_LIMIT, self.remaining);
            ClickStep::Batch(self.batch_for_draw(draw))
        }
    }

    /// Records the answer to a submitted batch. Only an accepted batch counts
    /// against what is left; a rejection by the service leaves the pass going,
    /// and a transport failure aborts it.
    pub fn on_reply(&mut self, batch: i64, reply: Result<(), BananaErr>) -> (r: Result<
        (),
        BananaErr,
    >)
        requires
            old(self).remaining > 0,
            legal_batch(old(self).remaining as int, batch as int),
        ensures
            final(self).remaining == if reply is Ok {
                old(self).remaining - batch
            } else {
                old(self).remaining as int
            },
            final(self).remaining >= 0,
            r == (if reply is Err && !(reply->Err_0 is ApiRejected) {
                Err::<(), BananaErr>(BananaErr::ClickAborted)
            } else {
                Ok(())
            }),
    {
        match reply {
            Ok(()) => {
                self.remaining = self.remaining - batch;
                Ok(())
            },
            Err(BananaErr::ApiRejected(..)) => Ok(()),
            Err(_) => Err(BananaErr::ClickAborted),
        }
    }
}

} // verus!
