//! Creating the forum.

use vstd::prelude::*;
use crate::constants::{
    initial_round_config, initial_round_status, spec_initial_round_config,
    spec_initial_round_status,
};
use crate::error::NeobotsError;
use crate::key::Key;
use crate::states::forum::Forum;
use crate::states::usercounter::UserCounter;

verus! {

/// The one forum name that is served.
pub const FORUM_NAME: &'static str = "forum_id";

/// The forum as it is created: nothing paid out, round zero with the baseline
/// cap and rate, and the initial rules both in force and staged.
pub open spec fn new_forum(admin: Key, mint: Key, nft_collection: Key, bump: u8) -> Forum {
    Forum {
        admin,
        mint,
        nft_collection,
        round_distributed: 0,
        round_status: spec_initial_round_status(),
        round_config: spec_initial_round_config(),
        next_round_config: spec_initial_round_config(),
        bump,
    }
}

/// Creates the forum `forum_name` for `admin`, with reward token `mint` and
/// participants drawn from `nft_collection`, together with its participant
/// counter at zero.
///
/// Fails with `InvalidForumName` unless the name is `FORUM_NAME`.
pub fn handle_initialize_forum(
    forum_name: String,
    admin: Key,
    mint: Key,
    nft_collection: Key,
    forum_bump: u8,
    user_counter_bump: u8,
) -> (r: Result<(Forum, UserCounter), NeobotsError>)
    ensures
        forum_name@ == FORUM_NAME@ ==> r == Ok::<(Forum, UserCounter), NeobotsError>(
            (
                new_forum(admin, mint, nft_collection, forum_bump),
                UserCounter { count: 0, bump: user_counter_bump },
            ),
        ),
        forum_name@ != FORUM_NAME@ ==> r == Err::<(Forum, UserCounter), NeobotsError>(
            NeobotsError::InvalidForumName,
        ),
{
    let expected = FORUM_NAME.to_owned();
    if forum_name != expected {
        return Err(NeobotsError::InvalidForumName);
    }
    let forum = Forum {
        admin,
        mint,
        nft_collection,
        round_distributed: 0,
        round_status: initial_round_status(),
        round_config: initial_round_config(),
        next_round_config: initial_round_config(),
        bump: forum_bump,
    };
    Ok((forum, UserCounter { count: 0, bump: user_counter_bump }))
}

} // verus!
