use neobots::{
    handle_initialize_forum, handle_initialize_operator, handle_initialize_operator_pool,
    handle_initialize_user, initial_action_points, initial_round_config, initial_round_status,
    authorize, resolve_caller, verify_collection, verify_mint, ActionPoints, Asset, Caller,
    Forum, Key, NeobotsError, Operation, Operator, OperatorPool, OperatorPrice, RoundConfig,
    RoundStatus, UpdateAuthority, User, UserCounter, FORUM_NAME,
    INFLATION_RATE, MAX_INTERACTION_METRICS, RATIO_SCALE, TOKEN_DECIMALS, TOKEN_UNIT,
};

fn key(n: u8) -> Key {
    Key { bytes: [n; 32] }
}

fn forum() -> Forum {
    let (forum, _) =
        handle_initialize_forum("forum_id".to_string(), key(1), key(2), key(3), 255, 254)
            .unwrap();
    forum
}

fn user(n: u8) -> User {
    handle_initialize_user(key(n), 7, "calm".to_string(), "ann".to_string(), "pic".to_string())
        .unwrap()
}

#[test]
fn constants_have_their_values() {
    assert_eq!(neobots::TOKEN_NAME, "Neobots");
    assert_eq!(neobots::TOKEN_SYMBOL, "NBT");
    assert_eq!(TOKEN_DECIMALS, 9);
    assert_eq!(TOKEN_UNIT, 1_000_000_000);
    assert_eq!(RATIO_SCALE, 1_000_000);
    assert_eq!(INFLATION_RATE, RATIO_SCALE / 10);
    assert_eq!(MAX_INTERACTION_METRICS, 30);
    assert_eq!(FORUM_NAME, "forum_id");
    assert_eq!(
        initial_action_points(),
        ActionPoints { post: 2, comment: 10, upvote: 3, downvote: 2, like: 3, banvote: 2 }
    );
    assert_eq!(
        initial_round_status(),
        RoundStatus {
            round_number: 0,
            round_start_time: 0,
            round_max_distribution: TOKEN_UNIT * 100,
            round_distribution_rate: RATIO_SCALE,
        }
    );
    assert_eq!(
        initial_round_config(),
        RoundConfig {
            round_duration: 0,
            round_min_distribution_rate: RATIO_SCALE / 10,
            round_max_distribution_rate: RATIO_SCALE * 10,
            k_comment: TOKEN_UNIT / 10,
            k_quote: TOKEN_UNIT / 2,
            k_reaction_giver: TOKEN_UNIT / 10,
            k_reaction_receiver: TOKEN_UNIT / 2,
            decay_factor: RATIO_SCALE / 2,
            default_action_points: initial_action_points(),
        }
    );
}

#[test]
fn forum_is_created_with_the_initial_round() {
    let r = handle_initialize_forum("forum_id".to_string(), key(1), key(2), key(3), 255, 254);
    assert_eq!(
        r,
        Ok((
            Forum {
                admin: key(1),
                mint: key(2),
                nft_collection: key(3),
                round_distributed: 0,
                round_status: initial_round_status(),
                round_config: initial_round_config(),
                next_round_config: initial_round_config(),
                bump: 255,
            },
            UserCounter { count: 0, bump: 254 },
        ))
    );
}

#[test]
fn forum_with_another_name_is_rejected() {
    for name in ["", "forum", "forum_id ", "Forum_id", "forum_idx", "another"] {
        let r = handle_initialize_forum(name.to_string(), key(1), key(2), key(3), 255, 254);
        assert_eq!(r, Err(NeobotsError::InvalidForumName), "name {:?}", name);
    }
}

#[test]
fn user_is_created_with_the_initial_budget() {
    let r = handle_initialize_user(
        key(10), 7, "calm".to_string(), "ann".to_string(), "pic".to_string(),
    );
    assert_eq!(
        r,
        Ok(User {
            nft_mint: key(10),
            claimable_amount: 0,
            local_round_number: 0,
            action_points: ActionPoints {
                post: 2,
                comment: 10,
                upvote: 3,
                downvote: 2,
                like: 3,
                banvote: 2
            },
            interaction_metrics: Vec::new(),
            post_count: 0,
            comment_count: 0,
            upvote_count: 0,
            downvote_count: 0,
            like_count: 0,
            banvote_count: 0,
            reaction_count: 0,
            received_upvote_count: 0,
            received_downvote_count: 0,
            received_like_count: 0,
            received_banvote_count: 0,
            received_reaction_count: 0,
            received_comment_count: 0,
            personality: "calm".to_string(),
            name: "ann".to_string(),
            thumb: "pic".to_string(),
            operator: None,
            bump: 7,
        })
    );
}

#[test]
fn operator_is_created_with_its_prices_in_force_and_staged() {
    let r = handle_initialize_operator(key(80), 3, 500, 50, 20, 10);
    let price = OperatorPrice {
        price_per_post: 500,
        price_per_comment: 50,
        price_per_like: 20,
        price_per_vote: 10,
    };
    assert_eq!(r, Ok(Operator { authority: key(80), price, next_round_price: price, bump: 3 }));
}

#[test]
fn operator_pool_is_created() {
    assert_eq!(
        handle_initialize_operator_pool(key(8), 250),
        Ok(OperatorPool { authority: key(8), bump: 250 })
    );
}

#[test]
fn keys_compare_by_their_bytes() {
    let mut a = [7u8; 32];
    assert_eq!(Key { bytes: a }, key(7));
    a[31] = 8;
    assert_ne!(Key { bytes: a }, key(7));
    a[31] = 7;
    a[0] = 0;
    assert_ne!(Key { bytes: a }, key(7));
    assert!(Key::default().is_zero());
    assert_eq!(Key::default(), key(0));
    assert!(!key(1).is_zero());
    let mut last = [0u8; 32];
    last[31] = 1;
    assert!(!Key { bytes: last }.is_zero());
}

const EVERY_OPERATION: [Operation; 13] = [
    Operation::InitializeUser,
    Operation::SetUserOperator,
    Operation::UnsetUserOperator,
    Operation::ResetUserActionPoints,
    Operation::CreatePost,
    Operation::AddComment,
    Operation::AddReaction,
    Operation::Claim,
    Operation::InitializeOperatorSession,
    Operation::SetOperator,
    Operation::Deposit,
    Operation::Withdraw,
    Operation::OperatorAddComment,
];

#[test]
fn owner_is_the_principal_for_every_operation() {
    let f = forum();
    let asset = Asset { owner: key(20), update_authority: UpdateAuthority::Collection(key(3)) };
    assert_eq!(resolve_caller(&asset, &None, &key(20)), Some(Caller::Principal));
    // An owner that is also the operator acts as principal.
    assert_eq!(resolve_caller(&asset, &Some(key(20)), &key(20)), Some(Caller::Principal));
    for operation in EVERY_OPERATION {
        assert_eq!(authorize(operation, &asset, &None, &f, &key(20)), Ok(Caller::Principal));
        assert_eq!(
            authorize(operation, &asset, &Some(key(81)), &f, &key(20)),
            Ok(Caller::Principal)
        );
    }
}

#[test]
fn operator_acts_only_where_operators_are_allowed() {
    let f = forum();
    let asset = Asset { owner: key(20), update_authority: UpdateAuthority::Collection(key(3)) };
    assert_eq!(resolve_caller(&asset, &Some(key(81)), &key(81)), Some(Caller::Operator));
    let open = [
        Operation::ResetUserActionPoints,
        Operation::AddReaction,
        Operation::InitializeOperatorSession,
        Operation::SetOperator,
        Operation::Deposit,
        Operation::Withdraw,
        Operation::OperatorAddComment,
    ];
    for operation in EVERY_OPERATION {
        let r = authorize(operation, &asset, &Some(key(81)), &f, &key(81));
        assert_eq!(operation.open_to_operator(), open.contains(&operation));
        if open.contains(&operation) {
            assert_eq!(r, Ok(Caller::Operator), "{:?}", operation);
        } else {
            assert_eq!(r, Err(NeobotsError::NFTNotOwned), "{:?}", operation);
        }
    }
}

#[test]
fn stranger_is_turned_away() {
    let f = forum();
    let asset = Asset { owner: key(20), update_authority: UpdateAuthority::Collection(key(3)) };
    assert_eq!(resolve_caller(&asset, &None, &key(99)), None);
    assert_eq!(resolve_caller(&asset, &Some(key(81)), &key(99)), None);
    for operation in EVERY_OPERATION {
        assert_eq!(
            authorize(operation, &asset, &None, &f, &key(99)),
            Err(NeobotsError::NFTNotOwned)
        );
        assert_eq!(
            authorize(operation, &asset, &Some(key(81)), &f, &key(99)),
            Err(NeobotsError::NFTNotOwned)
        );
    }
}

#[test]
fn asset_of_another_collection_is_turned_away() {
    let f = forum();
    let u = user(10);
    let foreign = Asset { owner: key(20), update_authority: UpdateAuthority::Collection(key(4)) };
    for operation in EVERY_OPERATION {
        assert_eq!(
            authorize(operation, &foreign, &u.operator, &f, &key(20)),
            Err(NeobotsError::NFTNotVerified)
        );
        // Who calls is looked at first.
        assert_eq!(
            authorize(operation, &foreign, &u.operator, &f, &key(99)),
            Err(NeobotsError::NFTNotOwned)
        );
    }
    assert_eq!(
        authorize(Operation::Deposit, &foreign, &Some(key(81)), &f, &key(81)),
        Err(NeobotsError::NFTNotVerified)
    );
}

#[test]
fn asset_must_belong_to_the_forum_collection() {
    let f = forum();
    let own = Asset { owner: key(20), update_authority: UpdateAuthority::Collection(key(3)) };
    assert_eq!(verify_collection(&own, &f), Ok(()));
    let other = Asset { owner: key(20), update_authority: UpdateAuthority::Collection(key(4)) };
    assert_eq!(verify_collection(&other, &f), Err(NeobotsError::NFTNotVerified));
    let address = Asset { owner: key(20), update_authority: UpdateAuthority::Address(key(3)) };
    assert_eq!(verify_collection(&address, &f), Err(NeobotsError::NFTNotVerified));
    let nobody = Asset { owner: key(20), update_authority: UpdateAuthority::Nobody };
    assert_eq!(verify_collection(&nobody, &f), Err(NeobotsError::NFTNotVerified));
}

#[test]
fn token_must_be_the_forum_token() {
    let f = forum();
    assert_eq!(verify_mint(&key(2), &f), Ok(()));
    assert_eq!(verify_mint(&key(3), &f), Err(NeobotsError::InvalidMint));
}
