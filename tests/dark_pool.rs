use umbra_swap::dark::{
    cancel_dark_order, dark_swap, encrypt_for_maker, execute_dark_order, initialize_pool,
    query_pool_aggregates, submit_dark_order, update_pool_config, DarkExecution, DarkOrder,
    DarkPool, OrderStatus,
};
use umbra_swap::errors::DarkFlowError;
use umbra_swap::keys::Pubkey;
use umbra_swap::ledger::TokenAccount;
use umbra_swap::replay::NullifierSet;

fn key(b: u8) -> Pubkey {
    Pubkey::new([b; 32])
}

const POOL: u8 = 1;
const AUTHORITY: u8 = 2;
const MINT_A: u8 = 3;
const MINT_B: u8 = 4;
const MAKER: u8 = 10;
const ORDER: u8 = 11;
const ESCROW: u8 = 12;
const SOLVER: u8 = 13;
const NOW: i64 = 1_000;

struct Pool {
    pool: DarkPool,
    vault_a: TokenAccount,
    vault_b: TokenAccount,
    maker_a: TokenAccount,
    maker_b: TokenAccount,
    guard: NullifierSet,
}

fn pool() -> Pool {
    let (pool, mut vault_a, mut vault_b) = initialize_pool(
        key(POOL), key(AUTHORITY), key(MINT_A), key(MINT_B), key(5), key(6), [7u8; 32], 30, NOW,
    )
    .unwrap();
    vault_a.amount = 10_000;
    vault_b.amount = 10_000;
    Pool {
        pool,
        vault_a,
        vault_b,
        maker_a: TokenAccount::new(key(20), key(MINT_A), key(MAKER), 1_000),
        maker_b: TokenAccount::new(key(21), key(MINT_B), key(MAKER), 0),
        guard: NullifierSet::new(),
    }
}

fn submit(p: &mut Pool, order_byte: u8) -> (DarkOrder, TokenAccount) {
    submit_dark_order(
        &mut p.pool, &key(MAKER), key(order_byte), key(order_byte + 100), &mut p.maker_a,
        vec![1; 48], [9u8; 32], 100, NOW + 60, NOW,
    )
    .unwrap()
}

#[test]
fn pool_initialization_checks() {
    let zero_key = initialize_pool(
        key(POOL), key(AUTHORITY), key(MINT_A), key(MINT_B), key(5), key(6), [0u8; 32], 30, NOW,
    );
    assert_eq!(zero_key.err(), Some(DarkFlowError::InvalidEncryptionKey));
    let high_fee = initialize_pool(
        key(POOL), key(AUTHORITY), key(MINT_A), key(MINT_B), key(5), key(6), [7u8; 32], 10001, NOW,
    );
    assert_eq!(high_fee.err(), Some(DarkFlowError::InvalidAmount));
    let p = pool();
    assert!(p.pool.is_active);
    assert_eq!(p.pool.state_commitment, [0u8; 32]);
    assert_eq!(p.vault_a.owner, key(POOL));
}

#[test]
fn dark_order_submission() {
    let mut p = pool();
    let (order, escrow) = submit(&mut p, ORDER);
    assert_eq!(order.status, OrderStatus::Pending);
    assert_eq!(order.output_mint, key(MINT_B));
    assert_eq!(escrow.amount, 100);
    assert_eq!(escrow.owner, key(ORDER));
    assert_eq!(p.maker_a.amount, 900);
    assert_eq!(p.pool.order_count, 1);
    let late = submit_dark_order(
        &mut p.pool, &key(MAKER), key(ORDER), key(ESCROW), &mut p.maker_a, vec![1; 48],
        [9u8; 32], 100, NOW, NOW,
    );
    assert_eq!(late.err(), Some(DarkFlowError::DeadlineExceeded));
    let empty = submit_dark_order(
        &mut p.pool, &key(MAKER), key(ORDER), key(ESCROW), &mut p.maker_a, vec![], [9u8; 32],
        100, NOW + 1, NOW,
    );
    assert_eq!(empty.err(), Some(DarkFlowError::InvalidEncryptedData));
}

#[test]
fn nullifier_reuse_in_dark_execution() {
    let mut p = pool();
    let (mut first, mut first_escrow) = submit(&mut p, ORDER);
    let (mut second, mut second_escrow) = submit(&mut p, ORDER + 1);
    let nullifier = [42u8; 32];
    let out = execute_dark_order(
        &mut p.pool,
        &mut first,
        &key(SOLVER),
        DarkExecution {
            escrow: &mut first_escrow,
            vault_input: &mut p.vault_a,
            vault_output: &mut p.vault_b,
            maker_output: &mut p.maker_b,
        },
        &mut p.guard,
        nullifier,
        50,
        &[0u8; 32],
        NOW + 1,
    );
    // 10000 * 100 * 9970 / (10000 * 10000 + 100 * 9970)
    assert_eq!(out, Ok(98));
    assert_eq!(first.status, OrderStatus::Filled);
    assert_eq!(first.executed_by, Some(key(SOLVER)));
    assert_eq!(first.encrypted_output, 98u64.to_le_bytes().to_vec());
    assert_eq!(p.maker_b.amount, 98);
    assert_eq!(p.vault_a.amount, 10_100);
    assert_eq!(p.vault_b.amount, 9_902);
    assert_eq!(first_escrow.amount, 0);
    assert!(p.guard.is_nullifier_used(&nullifier));

    let again = execute_dark_order(
        &mut p.pool,
        &mut second,
        &key(SOLVER),
        DarkExecution {
            escrow: &mut second_escrow,
            vault_input: &mut p.vault_a,
            vault_output: &mut p.vault_b,
            maker_output: &mut p.maker_b,
        },
        &mut p.guard,
        nullifier,
        50,
        &[0u8; 32],
        NOW + 2,
    );
    assert_eq!(again, Err(DarkFlowError::NullifierAlreadyUsed));
    assert_eq!(p.maker_b.amount, 98);
    assert_eq!(p.vault_a.amount, 10_100);
    assert_eq!(p.vault_b.amount, 9_902);
    assert_eq!(second_escrow.amount, 100);
    assert_eq!(second.status, OrderStatus::Pending);
    assert_eq!(p.guard.len(), 1);
}

#[test]
fn dark_slippage_burns_nullifier_without_moving_funds() {
    let mut p = pool();
    let (mut order, mut escrow) = submit(&mut p, ORDER);
    let result = execute_dark_order(
        &mut p.pool,
        &mut order,
        &key(SOLVER),
        DarkExecution {
            escrow: &mut escrow,
            vault_input: &mut p.vault_a,
            vault_output: &mut p.vault_b,
            maker_output: &mut p.maker_b,
        },
        &mut p.guard,
        [1u8; 32],
        99,
        &[0u8; 32],
        NOW + 1,
    );
    assert_eq!(result, Err(DarkFlowError::SlippageExceeded));
    assert!(p.guard.is_nullifier_used(&[1u8; 32]));
    assert_eq!(escrow.amount, 100);
    assert_eq!(p.vault_b.amount, 10_000);
    assert_eq!(order.status, OrderStatus::Pending);
}

#[test]
fn dark_execution_gates() {
    let mut p = pool();
    let (mut order, mut escrow) = submit(&mut p, ORDER);
    let short_proof = execute_dark_order(
        &mut p.pool,
        &mut order,
        &key(SOLVER),
        DarkExecution {
            escrow: &mut escrow,
            vault_input: &mut p.vault_a,
            vault_output: &mut p.vault_b,
            maker_output: &mut p.maker_b,
        },
        &mut p.guard,
        [1u8; 32],
        0,
        &[0u8; 31],
        NOW + 1,
    );
    assert_eq!(short_proof, Err(DarkFlowError::InvalidZkProof));
    let expired = execute_dark_order(
        &mut p.pool,
        &mut order,
        &key(SOLVER),
        DarkExecution {
            escrow: &mut escrow,
            vault_input: &mut p.vault_a,
            vault_output: &mut p.vault_b,
            maker_output: &mut p.maker_b,
        },
        &mut p.guard,
        [1u8; 32],
        0,
        &[0u8; 32],
        NOW + 61,
    );
    assert_eq!(expired, Err(DarkFlowError::OrderNotPending));
    assert_eq!(p.guard.len(), 0);
}

#[test]
fn dark_order_cancellation() {
    let mut p = pool();
    let (mut order, mut escrow) = submit(&mut p, ORDER);
    assert_eq!(
        cancel_dark_order(&mut order, &key(99), &mut escrow, &mut p.maker_a),
        Err(DarkFlowError::Unauthorized)
    );
    assert_eq!(cancel_dark_order(&mut order, &key(MAKER), &mut escrow, &mut p.maker_a), Ok(()));
    assert_eq!(p.maker_a.amount, 1_000);
    assert_eq!(order.status, OrderStatus::Cancelled);
    assert_eq!(
        cancel_dark_order(&mut order, &key(MAKER), &mut escrow, &mut p.maker_a),
        Err(DarkFlowError::OrderNotPending)
    );
}

#[test]
fn dark_swap_consumes_nullifier_once() {
    let mut p = pool();
    assert_eq!(dark_swap(&p.pool, &mut p.guard, &[1; 10], &[0; 32], [5u8; 32], NOW), Ok(()));
    assert_eq!(
        dark_swap(&p.pool, &mut p.guard, &[1; 10], &[0; 32], [5u8; 32], NOW),
        Err(DarkFlowError::NullifierAlreadyUsed)
    );
    assert_eq!(
        dark_swap(&p.pool, &mut p.guard, &[], &[0; 32], [6u8; 32], NOW),
        Err(DarkFlowError::InvalidEncryptedData)
    );
    assert_eq!(
        dark_swap(&p.pool, &mut p.guard, &[1; 10], &[0; 8], [6u8; 32], NOW),
        Err(DarkFlowError::InvalidZkProof)
    );
    assert_eq!(p.guard.len(), 1);
}

#[test]
fn nullifier_set_records_each_value_once() {
    let mut set = NullifierSet::new();
    assert_eq!(set.mark_nullifier_used([3u8; 32], 10), Ok(()));
    assert_eq!(set.mark_nullifier_used([4u8; 32], 11), Ok(()));
    assert_eq!(set.mark_nullifier_used([3u8; 32], 12), Err(DarkFlowError::NullifierAlreadyUsed));
    assert_eq!(set.len(), 2);
    assert_eq!(set.records[0].used_at, 10);
    assert!(!set.is_nullifier_used(&[5u8; 32]));
}

#[test]
fn pool_configuration_updates() {
    let mut p = pool();
    assert_eq!(
        update_pool_config(&mut p.pool, &key(99), Some(10), None, NOW + 1),
        Err(DarkFlowError::Unauthorized)
    );
    assert_eq!(
        update_pool_config(&mut p.pool, &key(AUTHORITY), Some(10), Some([0u8; 32]), NOW + 1),
        Err(DarkFlowError::InvalidEncryptionKey)
    );
    assert_eq!(p.pool.fee_rate_bps, 30);
    assert_eq!(
        update_pool_config(&mut p.pool, &key(AUTHORITY), Some(10), None, NOW + 1),
        Ok(())
    );
    assert_eq!(p.pool.fee_rate_bps, 10);
    assert_eq!(p.pool.last_update, NOW + 1);
}

#[test]
fn aggregates_and_encoding() {
    let mut p = pool();
    p.pool.add_volume(u64::MAX, 5);
    p.pool.add_volume(1, 5);
    assert_eq!(p.pool.total_volume_a, u64::MAX);
    let agg = query_pool_aggregates(&p.pool);
    assert_eq!(agg.volume_24h, u64::MAX);
    assert_eq!(agg.lp_count, 0);
    assert_eq!(encrypt_for_maker(0x0102, &key(1)), vec![2, 1, 0, 0, 0, 0, 0, 0]);
}
