use neobots::{
    adaptive_cap, adaptive_rate, bounded_rate, handle_advance_round, handle_claim,
    handle_initialize_forum, handle_initialize_user, is_round_over, ActionPoints, Forum, Key,
    NeobotsError, RoundPolicy, User, BASE_ROUND_DISTRIBUTION_RATE, BASE_ROUND_MAX_DISTRIBUTION,
};

fn key(n: u8) -> Key {
    Key { bytes: [n; 32] }
}

fn forum() -> Forum {
    let (forum, _) =
        handle_initialize_forum("forum_id".to_string(), key(1), key(2), key(3), 255, 254)
            .unwrap();
    forum
}

fn user(n: u8) -> User {
    handle_initialize_user(key(n), 7, "calm".to_string(), "ann".to_string(), "pic".to_string())
        .unwrap()
}

#[test]
fn advance_one_second_early_is_rejected() {
    let mut f = forum();
    f.round_status.round_start_time = 1_000;
    f.round_config.round_duration = 3_600;
    f.round_status.round_number = 7;
    let before = f;

    let r = handle_advance_round(&mut f, 1_000 + 3_600 - 1, RoundPolicy::FixedBaseline);

    assert_eq!(r, Err(NeobotsError::TooEarlyToAdvanceRound));
    assert_eq!(f, before);
    assert!(!is_round_over(&f, 4_599));
}

#[test]
fn advance_exactly_at_the_end_succeeds() {
    let mut f = forum();
    f.round_status.round_start_time = 1_000;
    f.round_config.round_duration = 3_600;
    f.round_status.round_number = 7;

    assert!(is_round_over(&f, 4_600));
    let r = handle_advance_round(&mut f, 4_600, RoundPolicy::FixedBaseline);

    assert_eq!(r, Ok(()));
    assert_eq!(f.round_status.round_number, 8);
    assert_eq!(f.round_status.round_start_time, 4_600);
}

#[test]
fn advance_after_the_end_succeeds() {
    let mut f = forum();
    f.round_status.round_start_time = 1_000;
    f.round_config.round_duration = 3_600;
    f.round_status.round_number = 7;

    let r = handle_advance_round(&mut f, 9_999, RoundPolicy::FixedBaseline);

    assert_eq!(r, Ok(()));
    assert_eq!(f.round_status.round_number, 8);
    assert_eq!(f.round_status.round_start_time, 9_999);
}

#[test]
fn advance_installs_the_staged_rules_and_the_baseline() {
    let mut f = forum();
    f.round_status.round_max_distribution = 5;
    f.round_status.round_distribution_rate = 9;
    f.round_distributed = 3;
    f.next_round_config.round_duration = 60;
    f.next_round_config.k_comment = 123;
    f.next_round_config.default_action_points =
        ActionPoints { post: 9, comment: 9, upvote: 9, downvote: 9, like: 9, banvote: 9 };
    let staged = f.next_round_config;
    let before = f;

    assert_eq!(handle_advance_round(&mut f, 10, RoundPolicy::FixedBaseline), Ok(()));

    assert_eq!(f.round_config, staged);
    assert_eq!(f.next_round_config, staged);
    assert_eq!(f.round_status.round_number, 1);
    assert_eq!(f.round_status.round_start_time, 10);
    assert_eq!(f.round_status.round_max_distribution, BASE_ROUND_MAX_DISTRIBUTION);
    assert_eq!(f.round_status.round_max_distribution, 100_000_000_000);
    assert_eq!(f.round_status.round_distribution_rate, BASE_ROUND_DISTRIBUTION_RATE);
    assert_eq!(f.round_status.round_distribution_rate, 1_000_000);
    assert_eq!(f.round_distributed, 3);
    assert_eq!(f.admin, before.admin);
    assert_eq!(f.mint, before.mint);
    assert_eq!(f.nft_collection, before.nft_collection);
    assert_eq!(f.bump, before.bump);
}

#[test]
fn advance_uses_the_duration_in_force_not_the_staged_one() {
    let mut f = forum();
    f.round_status.round_start_time = 0;
    f.round_config.round_duration = 100;
    f.next_round_config.round_duration = 10;
    assert_eq!(
        handle_advance_round(&mut f, 50, RoundPolicy::FixedBaseline),
        Err(NeobotsError::TooEarlyToAdvanceRound)
    );
    assert_eq!(handle_advance_round(&mut f, 100, RoundPolicy::FixedBaseline), Ok(()));
    assert_eq!(
        handle_advance_round(&mut f, 105, RoundPolicy::FixedBaseline),
        Err(NeobotsError::TooEarlyToAdvanceRound)
    );
    assert_eq!(handle_advance_round(&mut f, 110, RoundPolicy::FixedBaseline), Ok(()));
    assert_eq!(f.round_status.round_number, 2);
}

#[test]
fn advance_handles_extreme_times_without_wrapping() {
    let mut f = forum();
    f.round_status.round_start_time = i64::MAX;
    f.round_config.round_duration = u64::MAX;
    assert!(!is_round_over(&f, i64::MAX));
    assert_eq!(
        handle_advance_round(&mut f, i64::MAX, RoundPolicy::FixedBaseline),
        Err(NeobotsError::TooEarlyToAdvanceRound)
    );
    f.round_status.round_start_time = i64::MIN;
    f.round_config.round_duration = 0;
    assert_eq!(handle_advance_round(&mut f, i64::MIN, RoundPolicy::Adaptive), Ok(()));
    assert_eq!(f.round_status.round_start_time, i64::MIN);
}

#[test]
fn advance_with_a_full_round_counter_is_an_overflow() {
    let mut f = forum();
    f.round_status.round_number = u64::MAX;
    let before = f;
    assert_eq!(
        handle_advance_round(&mut f, 5, RoundPolicy::FixedBaseline),
        Err(NeobotsError::MathOverflow)
    );
    assert_eq!(f, before);
    assert_eq!(
        handle_advance_round(&mut f, 5, RoundPolicy::Adaptive),
        Err(NeobotsError::MathOverflow)
    );
    assert_eq!(f, before);
}

#[test]
fn advance_does_not_need_a_participant() {
    // A participant catches up on its next action, not when the round moves.
    let mut f = forum();
    let u = user(10);
    let before = u.clone();
    handle_advance_round(&mut f, 5, RoundPolicy::FixedBaseline).unwrap();
    assert_eq!(u, before);
    assert_eq!(u.local_round_number + 1, f.round_status.round_number);
}

#[test]
fn adaptive_advance_follows_what_was_paid_out() {
    let mut f = forum();
    f.round_status.round_max_distribution = 1_000;
    f.round_distributed = 500;
    // A rate of 1000 / 500 = 2x, within the bounds of 0.1x and 10x.
    assert_eq!(adaptive_rate(&f), 2_000_000);
    assert_eq!(adaptive_cap(&f), 100);

    assert_eq!(handle_advance_round(&mut f, 5, RoundPolicy::Adaptive), Ok(()));

    assert_eq!(f.round_status.round_number, 1);
    assert_eq!(f.round_status.round_start_time, 5);
    assert_eq!(f.round_status.round_distribution_rate, 2_000_000);
    assert_eq!(f.round_status.round_max_distribution, 100);
    assert_eq!(f.round_distributed, 0);
}

#[test]
fn adaptive_rate_is_held_to_the_staged_bounds() {
    let mut f = forum();
    f.round_status.round_max_distribution = 1_000;
    // Nothing paid out: 1x.
    f.round_distributed = 0;
    assert_eq!(adaptive_rate(&f), 1_000_000);
    // 1000 / 1 = 1000x, lowered to the upper bound of 10x.
    f.round_distributed = 1;
    assert_eq!(adaptive_rate(&f), 10_000_000);
    // 1000 / 1_000_000 = 0.001x, raised to the lower bound of 0.1x.
    f.round_distributed = 1_000_000;
    assert_eq!(adaptive_rate(&f), 100_000);
    // The bounds are those of the staged rules.
    f.next_round_config.round_min_distribution_rate = 5;
    f.round_config.round_min_distribution_rate = 999_999_999;
    assert_eq!(adaptive_rate(&f), 1_000);
    // A product that does not fit counts as the largest value.
    f.round_status.round_max_distribution = u64::MAX;
    f.round_distributed = 1 << 60;
    f.next_round_config.round_max_distribution_rate = u64::MAX;
    assert_eq!(adaptive_rate(&f), 15);
}

#[test]
fn bounded_rate_prefers_the_lower_bound() {
    let mut f = forum();
    assert_eq!(bounded_rate(5, &f.round_config), 100_000);
    assert_eq!(bounded_rate(100_000, &f.round_config), 100_000);
    assert_eq!(bounded_rate(5_000_000, &f.round_config), 5_000_000);
    assert_eq!(bounded_rate(10_000_001, &f.round_config), 10_000_000);
    // Bounds that cross: below the lower bound gives the lower bound, anything
    // else the upper bound.
    f.round_config.round_min_distribution_rate = 10;
    f.round_config.round_max_distribution_rate = 1;
    assert_eq!(bounded_rate(0, &f.round_config), 10);
    assert_eq!(bounded_rate(10, &f.round_config), 1);
    assert_eq!(bounded_rate(500, &f.round_config), 1);
}

#[test]
fn claim_with_cap_pays_what_the_cap_leaves() {
    // 500 claimable, cap 300, 250 paid out already: 50 are paid, 450 stay.
    let mut f = forum();
    f.round_status.round_max_distribution = 300;
    f.round_distributed = 250;
    let mut u = user(10);
    u.claimable_amount = 500;

    let r = handle_claim(&mut u, &mut f, true);

    assert_eq!(r, Ok(50));
    assert_eq!(u.claimable_amount, 450);
    assert_eq!(f.round_distributed, 300);
    // The cap is used up now: a further claim finds nothing to pay.
    let before_u = u.clone();
    let before_f = f;
    assert_eq!(handle_claim(&mut u, &mut f, true), Err(NeobotsError::NotEnoughClaimableAmount));
    assert_eq!(u, before_u);
    assert_eq!(f, before_f);
}

#[test]
fn claim_without_cap_pays_everything() {
    // The same records, with the cap not enforced: all 500 are paid.
    let mut f = forum();
    f.round_status.round_max_distribution = 300;
    f.round_distributed = 250;
    let mut u = user(10);
    u.claimable_amount = 500;

    let r = handle_claim(&mut u, &mut f, false);

    assert_eq!(r, Ok(500));
    assert_eq!(u.claimable_amount, 0);
    assert_eq!(f.round_distributed, 750);
}

#[test]
fn claim_within_the_cap_clears_the_balance() {
    let mut f = forum();
    f.round_status.round_max_distribution = 300;
    f.round_distributed = 250;
    let mut u = user(10);
    u.claimable_amount = 50;
    assert_eq!(handle_claim(&mut u, &mut f, true), Ok(50));
    assert_eq!(u.claimable_amount, 0);
    assert_eq!(f.round_distributed, 300);

    let mut f = forum();
    let mut u = user(11);
    u.claimable_amount = 7;
    assert_eq!(handle_claim(&mut u, &mut f, true), Ok(7));
    assert_eq!(u.claimable_amount, 0);
    assert_eq!(f.round_distributed, 7);
}

#[test]
fn claim_of_nothing_is_rejected() {
    let mut f = forum();
    let mut u = user(10);
    let before_u = u.clone();
    let before_f = f;
    assert_eq!(handle_claim(&mut u, &mut f, true), Err(NeobotsError::NotEnoughClaimableAmount));
    assert_eq!(handle_claim(&mut u, &mut f, false), Err(NeobotsError::NotEnoughClaimableAmount));
    assert_eq!(u, before_u);
    assert_eq!(f, before_f);
}

#[test]
fn claim_against_an_overdrawn_cap_is_rejected() {
    let mut f = forum();
    f.round_status.round_max_distribution = 100;
    f.round_distributed = 180;
    assert_eq!(f.remaining_emission(), 0);
    let mut u = user(10);
    u.claimable_amount = 5;
    assert_eq!(handle_claim(&mut u, &mut f, true), Err(NeobotsError::NotEnoughClaimableAmount));
    assert_eq!(u.claimable_amount, 5);
    assert_eq!(f.round_distributed, 180);
}

#[test]
fn claim_that_overflows_the_payout_counter_is_rejected() {
    let mut f = forum();
    f.round_distributed = u64::MAX - 3;
    let mut u = user(10);
    u.claimable_amount = 4;
    let before_u = u.clone();
    let before_f = f;
    assert_eq!(handle_claim(&mut u, &mut f, false), Err(NeobotsError::MathOverflow));
    assert_eq!(u, before_u);
    assert_eq!(f, before_f);
    u.claimable_amount = 3;
    assert_eq!(handle_claim(&mut u, &mut f, false), Ok(3));
    assert_eq!(f.round_distributed, u64::MAX);
}

#[test]
fn claim_refills_a_stale_participant() {
    let mut f = forum();
    f.round_status.round_number = 2;
    let mut u = user(10);
    u.claimable_amount = 9;
    u.action_points.comment = 0;
    assert_eq!(handle_claim(&mut u, &mut f, true), Ok(9));
    assert_eq!(u.local_round_number, 2);
    assert_eq!(u.action_points.comment, 10);
}

#[test]
fn claim_rejected_keeps_a_stale_participant_stale() {
    let mut f = forum();
    f.round_status.round_number = 2;
    let mut u = user(10);
    u.action_points.comment = 0;
    assert_eq!(handle_claim(&mut u, &mut f, true), Err(NeobotsError::NotEnoughClaimableAmount));
    assert_eq!(u.local_round_number, 0);
    assert_eq!(u.action_points.comment, 0);
}

#[test]
fn remaining_emission_is_never_negative() {
    let mut f = forum();
    f.round_status.round_max_distribution = 10;
    f.round_distributed = 4;
    assert_eq!(f.remaining_emission(), 6);
    f.round_distributed = 10;
    assert_eq!(f.remaining_emission(), 0);
    f.round_distributed = 11;
    assert_eq!(f.remaining_emission(), 0);
}
