//! Histories of a forum: what holds of its round clock and of its payout
//! counter after any sequence of operations.

use vstd::prelude::*;
use crate::constants::{
    spec_initial_round_status, BASE_ROUND_MAX_DISTRIBUTION, INFLATION_RATE, RATIO_SCALE,
};
use crate::instructions::advance_round::{advanced, RoundPolicy};
use crate::instructions::claim::claimed;
use crate::ratio::lemma_scale_by_at_most_one;
use crate::states::forum::Forum;
use crate::states::user::UserView;

verus! {

/// One operation on a forum, with everything else that it reads. An
/// operation that is rejected leaves the forum as it was.
pub enum ForumStep {
    /// `handle_advance_round`.
    Advance { now: i64, policy: RoundPolicy },
    /// `handle_claim`, by the given participant.
    Claim { user: UserView, enforce_cap: bool },
}

/// The forum after one operation.
pub open spec fn forum_after(f: Forum, step: ForumStep) -> Forum {
    match step {
        ForumStep::Advance { now, policy } => match advanced(f, now, policy) {
            Ok(after) => after,
            Err(_) => f,
        },
        ForumStep::Claim { user, enforce_cap } => match claimed(user, f, enforce_cap) {
            Ok((_, after, _)) => after,
            Err(_) => f,
        },
    }
}

/// The forum after a sequence of operations, in order.
pub open spec fn forum_after_all(f: Forum, steps: Seq<ForumStep>) -> Forum
    decreases steps.len(),
{
    if steps.len() == 0 {
        f
    } else {
        forum_after(forum_after_all(f, steps.drop_last()), steps.last())
    }
}

/// Every claim in the sequence is made with the round's cap enforced.
pub open spec fn every_claim_capped(steps: Seq<ForumStep>) -> bool {
    forall|i: int|
        0 <= i < steps.len() ==> (#[trigger] steps[i] matches ForumStep::Claim {
            enforce_cap,
            ..
        } ==> enforce_cap)
}

/// The round advances only under the adaptive policy.
pub open spec fn every_advance_adaptive(steps: Seq<ForumStep>) -> bool {
    forall|i: int|
        0 <= i < steps.len() ==> (#[trigger] steps[i] matches ForumStep::Advance { policy, .. }
            ==> policy == RoundPolicy::Adaptive)
}

/// The payout is within the round's cap, and the cap is at most the baseline
/// cap. A new forum is so, and stays so while claims are capped.
pub open spec fn emission_bounded(f: Forum) -> bool {
    &&& f.within_cap()
    &&& f.round_status.round_max_distribution <= BASE_ROUND_MAX_DISTRIBUTION
}

/// A forum's round number never decreases, whatever operations are applied
/// to it: at any two points of a history, the later number is at least the
/// earlier one.
pub proof fn lemma_round_number_never_decreases(
    f: Forum,
    steps: Seq<ForumStep>,
    earlier: int,
    later: int,
)
    requires
        0 <= earlier <= later <= steps.len(),
    ensures
        forum_after_all(f, steps.take(earlier)).round_status.round_number <= forum_after_all(
            f,
            steps.take(later),
        ).round_status.round_number,
    decreases later - earlier,
{
    if earlier < later {
        lemma_round_number_never_decreases(f, steps, earlier, later - 1);
        assert(steps.take(later).drop_last() =~= steps.take(later - 1));
    }
}

/// One operation keeps the payout within a cap that is within the baseline,
/// if it is no claim without the cap.
pub proof fn lemma_step_keeps_emission_bounded(f: Forum, step: ForumStep)
    requires
        emission_bounded(f),
        step matches ForumStep::Claim { enforce_cap, .. } ==> enforce_cap,
    ensures
        emission_bounded(forum_after(f, step)),
{
    lemma_scale_by_at_most_one(f.round_status.round_max_distribution, INFLATION_RATE);
}

/// With the cap enforced on every claim, a forum never pays out more than its
/// round's cap: a forum whose payout is within its cap, and its cap within
/// the baseline, is so after any sequence of operations.
pub proof fn lemma_emission_stays_bounded(f: Forum, steps: Seq<ForumStep>)
    requires
        emission_bounded(f),
        every_claim_capped(steps),
    ensures
        emission_bounded(forum_after_all(f, steps)),
        forum_after_all(f, steps).round_distributed <= forum_after_all(
            f,
            steps,
        ).round_status.round_max_distribution,
    decreases steps.len(),
{
    if steps.len() > 0 {
        let init = steps.drop_last();
        assert forall|i: int| 0 <= i < init.len() implies (#[trigger] init[i] matches ForumStep::Claim {
            enforce_cap,
            ..
        } ==> enforce_cap) by {
            assert(init[i] == steps[i]);
        }
        lemma_emission_stays_bounded(f, init);
        assert(steps.last() == steps[steps.len() - 1]);
        lemma_step_keeps_emission_bounded(forum_after_all(f, init), steps.last());
    }
}

/// Where the round advances only under the adaptive policy, the cap need not
/// be within the baseline: a payout within the round's cap stays within it
/// while every claim is capped.
pub proof fn lemma_adaptive_emission_stays_in_cap(f: Forum, steps: Seq<ForumStep>)
    requires
        f.within_cap(),
        every_claim_capped(steps),
        every_advance_adaptive(steps),
    ensures
        forum_after_all(f, steps).within_cap(),
    decreases steps.len(),
{
    if steps.len() > 0 {
        let init = steps.drop_last();
        assert forall|i: int| 0 <= i < init.len() implies (#[trigger] init[i] matches ForumStep::Claim {
            enforce_cap,
            ..
        } ==> enforce_cap) by {
            assert(init[i] == steps[i]);
        }
        assert forall|i: int| 0 <= i < init.len() implies (#[trigger] init[i] matches ForumStep::Advance {
            policy,
            ..
        } ==> policy == RoundPolicy::Adaptive) by {
            assert(init[i] == steps[i]);
        }
        lemma_adaptive_emission_stays_in_cap(f, init);
        assert(steps.last() == steps[steps.len() - 1]);
    }
}

/// A forum that starts from the initial round state and has paid out nothing
/// is within its cap and within the baseline.
pub proof fn lemma_new_forum_is_bounded(f: Forum)
    requires
        f.round_distributed == 0,
        f.round_status == spec_initial_round_status(),
    ensures
        emission_bounded(f),
{
}

} // verus!
