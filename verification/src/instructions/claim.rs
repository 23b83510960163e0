//! Paying out the claimable balance.

use vstd::prelude::*;
use crate::error::NeobotsError;
use crate::instructions::shared::reset_user_if_needed;
use crate::states::forum::Forum;
use crate::states::user::{User, UserView};

verus! {

/// What a claim pays out: the whole claimable balance, or, where the round's
/// cap is enforced, as much of it as the cap still leaves room for.
pub open spec fn claim_amount(user: UserView, forum: Forum, enforce_cap: bool) -> u64 {
    if enforce_cap && user.claimable_amount > forum.remaining_emission() {
        forum.remaining_emission()
    } else {
        user.claimable_amount
    }
}

/// Participant and forum after a claim, with the amount paid out, or why
/// nothing is paid. The participant is refilled if the round has moved on;
/// the amount leaves its claimable balance and is added to the forum's
/// payout counter.
pub open spec fn claimed(user: UserView, forum: Forum, enforce_cap: bool) -> Result<
    (UserView, Forum, u64),
    NeobotsError,
> {
    let amount = claim_amount(user, forum, enforce_cap);
    if amount == 0 {
        Err(NeobotsError::NotEnoughClaimableAmount)
    } else if forum.round_distributed + amount > u64::MAX {
        Err(NeobotsError::MathOverflow)
    } else {
        Ok(
            (
                UserView {
                    claimable_amount: (user.claimable_amount - amount) as u64,
                    ..user.refreshed(forum)
                },
                Forum { round_distributed: (forum.round_distributed + amount) as u64, ..forum },
                amount,
            ),
        )
    }
}

/// Settles a claim and returns the amount that is to be minted to the
/// participant.
///
/// The amount is the participant's whole claimable balance. With
/// `enforce_cap`, it is at most what the round's cap still leaves room for,
/// and what exceeds that stays claimable. If the amount is zero the claim
/// fails with `NotEnoughClaimableAmount`; if the forum's payout counter
/// cannot hold it (possible only without the cap), with `MathOverflow`.
/// Otherwise the participant is refilled if the round has moved on, the
/// amount leaves the claimable balance and is added to the forum's payout
/// counter. A rejected claim changes nothing.
pub fn handle_claim(user: &mut User, forum: &mut Forum, enforce_cap: bool) -> (r: Result<
    u64,
    NeobotsError,
>)
    ensures
        match claimed(old(user)@, *old(forum), enforce_cap) {
            Ok((user_after, forum_after, amount)) => {
                &&& r == Ok::<u64, NeobotsError>(amount)
                &&& final(user)@ == user_after
                &&& *final(forum) == forum_after
            },
            Err(e) => {
                &&& r == Err::<u64, NeobotsError>(e)
                &&& *final(user) == *old(user)
                &&& *final(forum) == *old(forum)
            },
        },
        r matches Ok(amount) ==> {
            &&& 0 < amount <= old(user).claimable_amount
            &&& final(user).claimable_amount + amount == old(user).claimable_amount
            &&& final(forum).round_distributed == old(forum).round_distributed + amount
        },
        enforce_cap && old(forum).within_cap() ==> final(forum).within_cap(),
{
    let mut amount = user.claimable_amount;
    if enforce_cap {
        let room = forum.remaining_emission();
        if amount > room {
            amount = room;
        }
    }
    if amount == 0 {
        return Err(NeobotsError::NotEnoughClaimableAmount);
    }
    let distributed = match forum.round_distributed.checked_add(amount) {
        Some(d) => d,
        None => {
            return Err(NeobotsError::MathOverflow);
        },
    };
    reset_user_if_needed(user, forum)?;
    user.claimable_amount = user.claimable_amount - amount;
    forum.round_distributed = distributed;
    Ok(amount)
}

} // verus!
