use rewards::{
    add_reward, claim, initialize, AddReward, Capability, Claim, ErrorCode, ErrorKind, Initialize, Key,
    RewardPool, TransferOrder, TransferOutcome, UserReward, Vault,
};

fn key(tag: u8) -> Key {
    Key::new([tag; 32])
}

fn bound_vault(held: u64) -> Vault {
    Vault { key: key(2), owner: key(1), total_held: held }
}

fn deposit_ctx(balance: u64, held: u64) -> AddReward {
    AddReward {
        user_reward: UserReward { user: key(7), amount: balance },
        payer: key(3),
        payer_authority: key(4),
        vault: bound_vault(held),
    }
}

fn claim_ctx(balance: u64, held: u64, signer: Key) -> Claim {
    Claim {
        pool_key: key(1),
        pool: RewardPool { vault: key(2), authority: key(9) },
        user_reward: UserReward { user: key(7), amount: balance },
        vault: bound_vault(held),
        destination: key(5),
        authority: signer,
    }
}

#[test]
fn keys_compare_by_their_bytes() {
    let mut bytes = [0u8; 32];
    bytes[31] = 1;
    assert!(key(0).same(&Key::new([0u8; 32])));
    assert!(!key(0).same(&Key::new(bytes)));
    assert_eq!(key(6), Key::new([6u8; 32]));
    assert_ne!(key(6), key(8));
    assert_eq!(Key::new(bytes).to_bytes(), bytes);
}

#[test]
fn new_records_are_empty() {
    assert_eq!(UserReward::new(key(7)), UserReward { user: key(7), amount: 0 });
    let vault = Vault::new(key(2), key(1));
    assert_eq!(vault, Vault { key: key(2), owner: key(1), total_held: 0 });
    assert!(vault.backs(&key(1)));
    assert!(!vault.backs(&key(30)));
    assert!(!bound_vault(1).backs(&key(1)));
}

#[test]
fn initialize_binds_vault_and_authority() {
    let mut ctx = Initialize {
        pool_key: key(1),
        pool: None,
        payer: key(3),
        vault: Vault::new(key(2), key(1)),
        authority: key(9),
    };
    assert_eq!(initialize(&mut ctx), Ok(()));
    assert_eq!(ctx.pool, Some(RewardPool { vault: key(2), authority: key(9) }));
    assert_eq!(ctx.vault, Vault { key: key(2), owner: key(1), total_held: 0 });
    assert_eq!(ctx.pool_key, key(1));
    assert_eq!(ctx.payer, key(3));
    assert_eq!(ctx.authority, key(9));
}

#[test]
fn initialize_twice_fails_the_second_time() {
    let mut ctx = Initialize {
        pool_key: key(1),
        pool: None,
        payer: key(3),
        vault: Vault::new(key(2), key(1)),
        authority: key(9),
    };
    assert_eq!(initialize(&mut ctx), Ok(()));
    let after_first = ctx;
    assert_eq!(initialize(&mut ctx), Err(ErrorCode::AlreadyInitialized));
    assert_eq!(ctx, after_first);
}

#[test]
fn initialize_on_existing_pool_keeps_its_binding() {
    let existing = RewardPool { vault: key(20), authority: key(21) };
    let mut ctx = Initialize {
        pool_key: key(1),
        pool: Some(existing),
        payer: key(3),
        vault: Vault::new(key(2), key(1)),
        authority: key(9),
    };
    let before = ctx;
    assert_eq!(initialize(&mut ctx), Err(ErrorCode::AlreadyInitialized));
    assert_eq!(ctx, before);
    assert_eq!(ctx.pool, Some(existing));
}

#[test]
fn initialize_rejects_a_vault_bound_elsewhere() {
    let mut ctx = Initialize {
        pool_key: key(1),
        pool: None,
        payer: key(3),
        vault: Vault { key: key(2), owner: key(30), total_held: 0 },
        authority: key(9),
    };
    let before = ctx;
    assert_eq!(initialize(&mut ctx), Err(ErrorCode::InvalidVault));
    assert_eq!(ctx, before);
}

#[test]
fn initialize_rejects_a_vault_that_holds_funds() {
    let mut ctx = Initialize {
        pool_key: key(1),
        pool: None,
        payer: key(3),
        vault: Vault { key: key(2), owner: key(1), total_held: 5 },
        authority: key(9),
    };
    let before = ctx;
    assert_eq!(initialize(&mut ctx), Err(ErrorCode::InvalidVault));
    assert_eq!(ctx, before);
}

#[test]
fn existing_pool_is_reported_before_a_bad_vault() {
    let mut ctx = Initialize {
        pool_key: key(1),
        pool: Some(RewardPool { vault: key(20), authority: key(21) }),
        payer: key(3),
        vault: Vault { key: key(2), owner: key(30), total_held: 5 },
        authority: key(9),
    };
    assert_eq!(initialize(&mut ctx), Err(ErrorCode::AlreadyInitialized));
}

#[test]
fn deposit_order_moves_from_payer_to_vault() {
    let ctx = deposit_ctx(10, 10);
    assert_eq!(
        ctx.transfer_order(25),
        Ok(TransferOrder {
            from: key(3),
            to: key(2),
            authority: key(4),
            amount: 25,
            capability: None,
        })
    );
    assert_eq!(ctx, deposit_ctx(10, 10));
}

#[test]
fn deposit_credits_entry_and_vault() {
    let mut ctx = deposit_ctx(10, 40);
    assert_eq!(add_reward(&mut ctx, 25, TransferOutcome::Accepted), Ok(()));
    assert_eq!(ctx.user_reward, UserReward { user: key(7), amount: 35 });
    assert_eq!(ctx.vault, bound_vault(65));
    assert_eq!(ctx.payer, key(3));
    assert_eq!(ctx.payer_authority, key(4));
}

#[test]
fn deposit_of_nothing_changes_nothing() {
    let mut ctx = deposit_ctx(10, 40);
    assert_eq!(add_reward(&mut ctx, 0, TransferOutcome::Accepted), Ok(()));
    assert_eq!(ctx, deposit_ctx(10, 40));
}

#[test]
fn deposit_rejected_by_the_service_changes_nothing() {
    let mut ctx = deposit_ctx(10, 40);
    assert_eq!(add_reward(&mut ctx, 25, TransferOutcome::Rejected), Err(ErrorCode::TransferRejected));
    assert_eq!(ctx, deposit_ctx(10, 40));
}

#[test]
fn deposit_up_to_the_largest_amount_succeeds() {
    let mut ctx = deposit_ctx(u64::MAX - 1, u64::MAX - 1);
    assert_eq!(add_reward(&mut ctx, 1, TransferOutcome::Accepted), Ok(()));
    assert_eq!(ctx.user_reward.amount, u64::MAX);
    assert_eq!(ctx.vault.total_held, u64::MAX);
}

#[test]
fn deposit_past_the_largest_amount_fails() {
    let mut ctx = deposit_ctx(u64::MAX - 1, u64::MAX - 1);
    assert_eq!(ctx.transfer_order(2), Err(ErrorCode::OverflowError));
    assert_eq!(add_reward(&mut ctx, 2, TransferOutcome::Accepted), Err(ErrorCode::OverflowError));
    assert_eq!(ctx.user_reward.amount, u64::MAX - 1);
    assert_eq!(ctx.vault.total_held, u64::MAX - 1);
    assert_eq!(add_reward(&mut ctx, u64::MAX, TransferOutcome::Rejected), Err(ErrorCode::OverflowError));
    assert_eq!(ctx, deposit_ctx(u64::MAX - 1, u64::MAX - 1));
}

#[test]
fn deposit_into_a_full_vault_is_asked_and_rejected() {
    let mut ctx = deposit_ctx(0, u64::MAX);
    assert_eq!(
        ctx.transfer_order(1),
        Ok(TransferOrder {
            from: key(3),
            to: key(2),
            authority: key(4),
            amount: 1,
            capability: None,
        })
    );
    assert_eq!(add_reward(&mut ctx, 1, TransferOutcome::Rejected), Err(ErrorCode::TransferRejected));
    assert_eq!(ctx, deposit_ctx(0, u64::MAX));
}

#[test]
fn deposit_that_the_vault_cannot_record_changes_nothing() {
    let mut ctx = deposit_ctx(0, u64::MAX);
    assert_eq!(add_reward(&mut ctx, 1, TransferOutcome::Accepted), Err(ErrorCode::TransferRejected));
    assert_eq!(ctx, deposit_ctx(0, u64::MAX));
    let mut ctx = deposit_ctx(5, u64::MAX - 9);
    assert_eq!(add_reward(&mut ctx, 10, TransferOutcome::Accepted), Err(ErrorCode::TransferRejected));
    assert_eq!(ctx, deposit_ctx(5, u64::MAX - 9));
    assert_eq!(add_reward(&mut ctx, 9, TransferOutcome::Accepted), Ok(()));
    assert_eq!(ctx, deposit_ctx(14, u64::MAX));
}

#[test]
fn entry_overflow_is_reported_before_the_vault() {
    let mut ctx = deposit_ctx(u64::MAX, u64::MAX);
    assert_eq!(ctx.transfer_order(1), Err(ErrorCode::OverflowError));
    assert_eq!(add_reward(&mut ctx, 1, TransferOutcome::Rejected), Err(ErrorCode::OverflowError));
    assert_eq!(add_reward(&mut ctx, 1, TransferOutcome::Accepted), Err(ErrorCode::OverflowError));
    assert_eq!(ctx, deposit_ctx(u64::MAX, u64::MAX));
}

#[test]
fn claim_order_is_signed_by_the_pool() {
    let ctx = claim_ctx(100, 100, key(9));
    let order = ctx.transfer_order(60);
    assert_eq!(
        order,
        Ok(TransferOrder {
            from: key(2),
            to: key(5),
            authority: key(1),
            amount: 60,
            capability: Some(Capability { pool: key(1) }),
        })
    );
    assert_eq!(ctx.pool.authorize_transfer(key(1)), Capability { pool: key(1) });
    assert_eq!(Capability { pool: key(1) }.label(), *b"authority");
}

#[test]
fn claim_debits_entry_and_vault() {
    let mut ctx = claim_ctx(100, 250, key(9));
    assert_eq!(claim(&mut ctx, 60, TransferOutcome::Accepted), Ok(()));
    assert_eq!(ctx.user_reward, UserReward { user: key(7), amount: 40 });
    assert_eq!(ctx.vault, bound_vault(190));
    assert_eq!(ctx.pool, RewardPool { vault: key(2), authority: key(9) });
    assert_eq!(ctx.destination, key(5));
}

#[test]
fn claim_of_the_whole_balance_leaves_a_zero_entry() {
    let mut ctx = claim_ctx(100, 100, key(9));
    assert_eq!(claim(&mut ctx, 100, TransferOutcome::Accepted), Ok(()));
    assert_eq!(ctx.user_reward, UserReward { user: key(7), amount: 0 });
    assert_eq!(ctx.vault.total_held, 0);
    assert_eq!(claim(&mut ctx, 0, TransferOutcome::Accepted), Ok(()));
    assert_eq!(claim(&mut ctx, 1, TransferOutcome::Accepted), Err(ErrorCode::InsufficientRewards));
    assert_eq!(ctx.user_reward.amount, 0);
}

#[test]
fn claim_by_another_signer_is_unauthorized() {
    let mut ctx = claim_ctx(100, 100, key(8));
    assert_eq!(ctx.transfer_order(60), Err(ErrorCode::Unauthorized));
    assert_eq!(claim(&mut ctx, 60, TransferOutcome::Accepted), Err(ErrorCode::Unauthorized));
    assert_eq!(ctx, claim_ctx(100, 100, key(8)));
}

#[test]
fn unauthorized_comes_before_insufficient() {
    let mut ctx = claim_ctx(100, 100, key(7));
    assert_eq!(claim(&mut ctx, 101, TransferOutcome::Accepted), Err(ErrorCode::Unauthorized));
    assert_eq!(claim(&mut ctx, 101, TransferOutcome::Rejected), Err(ErrorCode::Unauthorized));
    assert_eq!(ctx, claim_ctx(100, 100, key(7)));
}

#[test]
fn the_entry_user_cannot_claim_alone() {
    let mut ctx = claim_ctx(100, 100, key(7));
    assert_eq!(ctx.user_reward.user, key(7));
    assert_eq!(claim(&mut ctx, 10, TransferOutcome::Accepted), Err(ErrorCode::Unauthorized));
}

#[test]
fn claim_beyond_the_balance_is_insufficient() {
    let mut ctx = claim_ctx(100, 500, key(9));
    assert_eq!(ctx.transfer_order(101), Err(ErrorCode::InsufficientRewards));
    assert_eq!(claim(&mut ctx, 101, TransferOutcome::Accepted), Err(ErrorCode::InsufficientRewards));
    assert_eq!(claim(&mut ctx, 101, TransferOutcome::Rejected), Err(ErrorCode::InsufficientRewards));
    assert_eq!(ctx, claim_ctx(100, 500, key(9)));
}

#[test]
fn claim_rejected_by_the_service_changes_nothing() {
    let mut ctx = claim_ctx(100, 100, key(9));
    assert_eq!(claim(&mut ctx, 60, TransferOutcome::Rejected), Err(ErrorCode::TransferRejected));
    assert_eq!(ctx, claim_ctx(100, 100, key(9)));
}

#[test]
fn claim_that_the_vault_cannot_cover_is_asked_and_rejected() {
    let mut ctx = claim_ctx(100, 50, key(9));
    assert_eq!(
        ctx.transfer_order(60),
        Ok(TransferOrder {
            from: key(2),
            to: key(5),
            authority: key(1),
            amount: 60,
            capability: Some(Capability { pool: key(1) }),
        })
    );
    assert_eq!(claim(&mut ctx, 60, TransferOutcome::Rejected), Err(ErrorCode::TransferRejected));
    assert_eq!(ctx, claim_ctx(100, 50, key(9)));
}

#[test]
fn claim_that_the_vault_cannot_record_changes_nothing() {
    let mut ctx = claim_ctx(100, 50, key(9));
    assert_eq!(claim(&mut ctx, 60, TransferOutcome::Accepted), Err(ErrorCode::TransferRejected));
    assert_eq!(ctx, claim_ctx(100, 50, key(9)));
    assert_eq!(claim(&mut ctx, 50, TransferOutcome::Accepted), Ok(()));
    assert_eq!(ctx, claim_ctx(50, 0, key(9)));
}

#[test]
fn two_claims_of_sixty_on_a_balance_of_one_hundred() {
    let mut ctx = claim_ctx(100, 100, key(9));
    let first = claim(&mut ctx, 60, TransferOutcome::Accepted);
    let second = claim(&mut ctx, 60, TransferOutcome::Accepted);
    assert_eq!(first, Ok(()));
    assert_eq!(second, Err(ErrorCode::InsufficientRewards));
    assert_eq!(ctx.user_reward.amount, 40);
    assert_eq!(ctx.vault.total_held, 40);
}

#[test]
fn deposit_then_claim_round_trip() {
    let mut deposit = deposit_ctx(0, 0);
    assert_eq!(add_reward(&mut deposit, 500, TransferOutcome::Accepted), Ok(()));
    assert_eq!(deposit.user_reward.amount, 500);
    assert_eq!(deposit.vault.total_held, 500);

    let mut withdrawal = Claim {
        pool_key: key(1),
        pool: RewardPool { vault: key(2), authority: key(9) },
        user_reward: deposit.user_reward,
        vault: deposit.vault,
        destination: key(5),
        authority: key(9),
    };
    assert_eq!(claim(&mut withdrawal, 500, TransferOutcome::Accepted), Ok(()));
    assert_eq!(withdrawal.user_reward, UserReward { user: key(7), amount: 0 });
    assert_eq!(withdrawal.vault, bound_vault(0));
}

#[test]
fn vault_holds_the_sum_of_its_entries() {
    let pool = RewardPool { vault: key(2), authority: key(9) };
    let mut vault = bound_vault(0);
    let mut entries = vec![UserReward::new(key(10)), UserReward::new(key(11)), UserReward::new(key(12))];
    let steps: [(usize, bool, u64, TransferOutcome); 8] = [
        (0, true, 100, TransferOutcome::Accepted),
        (1, true, 250, TransferOutcome::Accepted),
        (2, true, 7, TransferOutcome::Rejected),
        (0, false, 60, TransferOutcome::Accepted),
        (0, false, 60, TransferOutcome::Accepted),
        (1, false, 250, TransferOutcome::Rejected),
        (1, false, 250, TransferOutcome::Accepted),
        (2, true, u64::MAX, TransferOutcome::Accepted),
    ];
    let expected: [[u64; 3]; 8] = [
        [100, 0, 0],
        [100, 250, 0],
        [100, 250, 0],
        [40, 250, 0],
        [40, 250, 0],
        [40, 250, 0],
        [40, 0, 0],
        [40, 0, 0],
    ];
    for (n, (i, is_deposit, amount, outcome)) in steps.into_iter().enumerate() {
        if is_deposit {
            let mut ctx = AddReward {
                user_reward: entries[i],
                payer: key(3),
                payer_authority: key(4),
                vault,
            };
            let _ = add_reward(&mut ctx, amount, outcome);
            entries[i] = ctx.user_reward;
            vault = ctx.vault;
        } else {
            let mut ctx = Claim {
                pool_key: key(1),
                pool,
                user_reward: entries[i],
                vault,
                destination: key(5),
                authority: key(9),
            };
            let _ = claim(&mut ctx, amount, outcome);
            entries[i] = ctx.user_reward;
            vault = ctx.vault;
        }
        let amounts = [entries[0].amount, entries[1].amount, entries[2].amount];
        assert_eq!(amounts, expected[n]);
        assert_eq!(vault.total_held, amounts[0] + amounts[1] + amounts[2]);
    }
}

#[test]
fn every_failure_has_its_family() {
    assert_eq!(ErrorCode::AlreadyInitialized.kind(), ErrorKind::Setup);
    assert_eq!(ErrorCode::InvalidVault.kind(), ErrorKind::Setup);
    assert_eq!(ErrorCode::OverflowError.kind(), ErrorKind::Arithmetic);
    assert_eq!(ErrorCode::Unauthorized.kind(), ErrorKind::Authorization);
    assert_eq!(ErrorCode::InsufficientRewards.kind(), ErrorKind::Balance);
    assert_eq!(ErrorCode::TransferRejected.kind(), ErrorKind::Transfer);
}

#[test]
fn claims_on_different_entries_do_not_interfere() {
    let pool = RewardPool { vault: key(2), authority: key(9) };
    let first = UserReward { user: key(10), amount: 100 };
    let second = UserReward { user: key(11), amount: 70 };
    let vault = bound_vault(170);

    let mut a = Claim { pool_key: key(1), pool, user_reward: first, vault, destination: key(5), authority: key(9) };
    assert_eq!(claim(&mut a, 100, TransferOutcome::Accepted), Ok(()));
    let mut b = Claim { pool_key: key(1), pool, user_reward: second, vault: a.vault, destination: key(6), authority: key(9) };
    assert_eq!(claim(&mut b, 70, TransferOutcome::Accepted), Ok(()));
    assert_eq!((a.user_reward.amount, b.user_reward.amount, b.vault.total_held), (0, 0, 0));

    let mut b = Claim { pool_key: key(1), pool, user_reward: second, vault, destination: key(6), authority: key(9) };
    assert_eq!(claim(&mut b, 70, TransferOutcome::Accepted), Ok(()));
    let mut a = Claim { pool_key: key(1), pool, user_reward: first, vault: b.vault, destination: key(5), authority: key(9) };
    assert_eq!(claim(&mut a, 100, TransferOutcome::Accepted), Ok(()));
    assert_eq!((a.user_reward.amount, b.user_reward.amount, a.vault.total_held), (0, 0, 0));
}
