use solana_program::pubkey::Pubkey;
use yield_optimizer::instruction::{amount_le_bytes, build_instruction};
use yield_optimizer::{StakedexYieldOptimizer, YieldOptimizer, YieldOptimizerError, YieldStrategy};

fn optimizer() -> StakedexYieldOptimizer {
    StakedexYieldOptimizer::new([9u8; 32], [7u8; 32])
}

#[test]
fn amount_serializes_little_endian() {
    assert_eq!(amount_le_bytes(0), vec![0u8; 8]);
    assert_eq!(amount_le_bytes(1), vec![1, 0, 0, 0, 0, 0, 0, 0]);
    assert_eq!(amount_le_bytes(0x0102_0304_0506_0708), 0x0102_0304_0506_0708u64.to_le_bytes());
    assert_eq!(amount_le_bytes(u64::MAX), vec![0xff; 8]);
}

#[test]
fn optimize_ix_account_list_and_payload() {
    let o = optimizer();
    let user = [5u8; 32];
    let amount = 1_000_000_000u64;
    let ix = o.optimize_ix(amount, &YieldStrategy::Balanced, &user).unwrap();

    assert_eq!(ix.program_id, [9u8; 32]);

    assert_eq!(ix.accounts.len(), 3);
    assert_eq!(ix.accounts[0].pubkey, user);
    assert!(ix.accounts[0].is_signer);
    assert!(ix.accounts[0].is_writable);

    let (pda, _bump) = o.find_yield_position_pda(&user).unwrap();
    assert_eq!(ix.accounts[1].pubkey, pda);
    assert!(!ix.accounts[1].is_signer);
    assert!(ix.accounts[1].is_writable);

    assert_eq!(ix.accounts[2].pubkey, [0u8; 32]);
    assert!(!ix.accounts[2].is_signer);
    assert!(!ix.accounts[2].is_writable);

    let mut expected = vec![0u8, 1u8];
    expected.extend_from_slice(&amount.to_le_bytes());
    assert_eq!(ix.data, expected);
}

#[test]
fn optimize_ix_rejects_unsupported_strategy() {
    let o = optimizer();
    let user = [5u8; 32];
    let bad = YieldStrategy::Custom {
        risk_factor: 101,
        rebalance_threshold: 0,
        max_platform_allocation: 0,
    };
    let r = o.optimize_ix(1_000, &bad, &user);
    assert_eq!(r.unwrap_err(), YieldOptimizerError::InvalidStrategy);
}

#[test]
fn position_pda_matches_runtime_derivation() {
    let o = optimizer();
    let user = [5u8; 32];
    let (pda, bump) = o.find_yield_position_pda(&user).unwrap();
    let (expected, expected_bump) = Pubkey::find_program_address(
        &[b"yield_position", &user],
        &Pubkey::new_from_array([9u8; 32]),
    );
    assert_eq!(pda, expected.to_bytes());
    assert_eq!(bump, expected_bump);
    assert_ne!(pda, user);
}

#[test]
fn position_pda_is_deterministic() {
    let o = optimizer();
    let user = [5u8; 32];
    assert_eq!(o.find_yield_position_pda(&user), o.find_yield_position_pda(&user));
    let other = [6u8; 32];
    assert_ne!(
        o.find_yield_position_pda(&user).unwrap().0,
        o.find_yield_position_pda(&other).unwrap().0
    );
}

#[test]
fn build_instruction_uses_given_position_address() {
    let user = [5u8; 32];
    let pda = [11u8; 32];
    let program = [9u8; 32];
    let ix = build_instruction(7, &YieldStrategy::Aggressive, &user, &pda, &program);
    assert_eq!(ix.program_id, program);
    assert_eq!(ix.accounts[1].pubkey, pda);
    assert_eq!(ix.data, vec![0u8, 2, 7, 0, 0, 0, 0, 0, 0, 0]);
}

#[test]
fn accounts_len_per_strategy() {
    let o = optimizer();
    assert_eq!(o.accounts_len(&YieldStrategy::Conservative), 4);
    assert_eq!(o.accounts_len(&YieldStrategy::Balanced), 5);
    assert_eq!(o.accounts_len(&YieldStrategy::Aggressive), 4);
    let custom = YieldStrategy::Custom {
        risk_factor: 10,
        rebalance_threshold: 10,
        max_platform_allocation: 10,
    };
    assert_eq!(o.accounts_len(&custom), 6);
}

#[test]
fn active_platforms_lists_the_table() {
    let o = optimizer();
    let platforms = o.active_platforms();
    assert_eq!(platforms, vec![[1u8; 32], [2u8; 32], [3u8; 32]]);
}
