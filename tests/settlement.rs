use umbra_swap::errors::UmbraError;
use umbra_swap::keys::Pubkey;
use umbra_swap::ledger::TokenAccount;
use umbra_swap::orders::{
    cancel_order, claim_output, execute_order, initialize, set_active, submit_order,
    submit_order_with_sovereign, update_tier, OrderStatus, OrderType, SubmitAccounts, TieredOrder,
};
use umbra_swap::sovereign::TIER_OFFSET;
use umbra_swap::tiers::{MevProtectionLevel, TierConfig};

fn key(b: u8) -> Pubkey {
    Pubkey::new([b; 32])
}

const ADMIN: u8 = 1;
const SOLVER: u8 = 2;
const FEE_VAULT: u8 = 3;
const OWNER: u8 = 10;
const ORDER: u8 = 11;
const ORDER_VAULT: u8 = 12;
const OUTPUT_VAULT: u8 = 13;
const MINT_IN: u8 = 20;
const MINT_OUT: u8 = 21;
const NOW: i64 = 1_700_000_000;

struct World {
    config: TierConfig,
    accounts: SubmitAccounts,
    user_input: TokenAccount,
    user_output: TokenAccount,
    solver_input: TokenAccount,
    solver_output: TokenAccount,
    fee_vault: TokenAccount,
}

fn world() -> World {
    World {
        config: initialize(key(ADMIN), key(SOLVER), key(FEE_VAULT)),
        accounts: SubmitAccounts {
            owner: key(OWNER),
            order_key: key(ORDER),
            order_vault_key: key(ORDER_VAULT),
            input_mint: key(MINT_IN),
            output_mint: key(MINT_OUT),
        },
        user_input: TokenAccount::new(key(30), key(MINT_IN), key(OWNER), 5000),
        user_output: TokenAccount::new(key(31), key(MINT_OUT), key(OWNER), 0),
        solver_input: TokenAccount::new(key(32), key(MINT_IN), key(SOLVER), 0),
        solver_output: TokenAccount::new(key(33), key(MINT_OUT), key(SOLVER), 1_000_000),
        fee_vault: TokenAccount::new(key(FEE_VAULT), key(MINT_OUT), key(ADMIN), 0),
    }
}

fn submit(w: &mut World, payload_len: usize, score: u8) -> Result<(TieredOrder, TokenAccount), UmbraError> {
    submit_order(
        &w.config,
        &w.accounts,
        &mut w.user_input,
        7,
        1000,
        1,
        vec![0xAB; payload_len],
        vec![9; 32],
        score,
        NOW - 30,
        NOW,
    )
}

#[test]
fn payload_length_boundaries() {
    let mut w = world();
    assert_eq!(submit(&mut w, 23, 50).err(), Some(UmbraError::InvalidPayloadLength));
    assert_eq!(w.user_input.amount, 5000);
    assert!(submit(&mut w, 24, 50).is_ok());
    assert!(submit(&mut w, 128, 50).is_ok());
    assert_eq!(submit(&mut w, 129, 50).err(), Some(UmbraError::InvalidPayloadLength));
    assert_eq!(w.user_input.amount, 3000);
}

#[test]
fn submit_freezes_tier_terms() {
    let mut w = world();
    let (order, vault) = submit(&mut w, 64, 65).unwrap();
    assert_eq!(order.status, OrderStatus::Pending);
    assert_eq!(order.order_type, OrderType::Market);
    assert_eq!(order.user_tier, 3);
    assert_eq!(order.fee_bps_applied, 8);
    assert_eq!(order.mev_protection_level, MevProtectionLevel::Priority);
    assert_eq!(order.fairscore_at_creation, 65);
    assert_eq!(order.created_at, NOW);
    assert_eq!(order.executed_by, None);
    assert_eq!(vault.amount, 1000);
    assert_eq!(vault.owner, key(ORDER));
    assert_eq!(w.user_input.amount, 4000);
}

#[test]
fn submit_rejections() {
    let mut w = world();
    let stale = submit_order(
        &w.config, &w.accounts, &mut w.user_input, 7, 1000, 1, vec![0; 30], vec![], 50,
        NOW - 601, NOW,
    );
    assert_eq!(stale.err(), Some(UmbraError::FairScoreProofExpired));
    let zero = submit_order(
        &w.config, &w.accounts, &mut w.user_input, 7, 0, 1, vec![0; 30], vec![], 50, NOW, NOW,
    );
    assert_eq!(zero.err(), Some(UmbraError::InvalidInputAmount));
    let bad_score = submit_order(
        &w.config, &w.accounts, &mut w.user_input, 7, 10, 1, vec![0; 30], vec![], 101, NOW, NOW,
    );
    assert_eq!(bad_score.err(), Some(UmbraError::InvalidFairScore));
    let not_a_type = submit_order(
        &w.config, &w.accounts, &mut w.user_input, 7, 10, 3, vec![0; 30], vec![], 100, NOW, NOW,
    );
    assert_eq!(not_a_type.err(), Some(UmbraError::OrderTypeNotAllowed));
    let limit_for_low_tier = submit_order(
        &w.config, &w.accounts, &mut w.user_input, 7, 10, 2, vec![0; 30], vec![], 5, NOW, NOW,
    );
    assert_eq!(limit_for_low_tier.err(), Some(UmbraError::OrderTypeNotAllowed));
    let too_much = submit_order(
        &w.config, &w.accounts, &mut w.user_input, 7, 5001, 1, vec![0; 30], vec![], 5, NOW, NOW,
    );
    assert_eq!(too_much.err(), Some(UmbraError::InsufficientBalance));
    assert_eq!(w.user_input.amount, 5000);
    set_active(&mut w.config, &key(ADMIN), false).unwrap();
    assert_eq!(submit(&mut w, 30, 50).err(), Some(UmbraError::ProtocolPaused));
}

#[test]
fn submit_execute_claim_round_trip() {
    let mut w = world();
    let (mut order, mut order_vault) = submit(&mut w, 64, 50).unwrap();
    let fee_bps = order.fee_bps_applied as u64;
    assert_eq!(fee_bps, 15);
    let orders_before = w.config.total_orders;
    let mut output_vault = execute_order(
        &mut w.config,
        &mut order,
        &key(SOLVER),
        &mut order_vault,
        key(OUTPUT_VAULT),
        &mut w.solver_input,
        &mut w.solver_output,
        &mut w.fee_vault,
        1500,
        2000,
        NOW + 5,
    )
    .unwrap();
    let fee = 2000 * fee_bps / 10000;
    assert_eq!(fee, 3);
    assert_eq!(w.solver_input.amount, 1000);
    assert_eq!(w.fee_vault.amount, fee);
    assert_eq!(w.solver_output.amount, 1_000_000 - 2000);
    assert_eq!(output_vault.amount, 2000 - fee);
    assert_eq!(order_vault.amount, 0);
    assert_eq!(w.config.total_orders, orders_before + 1);
    assert_eq!(w.config.total_volume_by_tier[2], 1000);
    assert_eq!(w.config.total_fees_collected, fee);
    assert_eq!(order.status, OrderStatus::Completed);
    assert_eq!(order.output_amount, 1997);
    assert_eq!(order.min_output_amount, 1500);
    assert_eq!(order.executed_by, Some(key(SOLVER)));
    assert_eq!(order.executed_at, NOW + 5);

    let claimed = claim_output(&order, &key(OWNER), &mut output_vault, &mut w.user_output);
    assert_eq!(claimed, Ok(1997));
    assert_eq!(w.user_output.amount, 2000 - fee);
    assert!(!output_vault.is_open);
}

#[test]
fn cancel_returns_escrow_once() {
    let mut w = world();
    let (mut order, mut order_vault) = submit(&mut w, 64, 50).unwrap();
    assert_eq!(w.user_input.amount, 4000);
    assert_eq!(
        cancel_order(&mut order, &key(99), &mut order_vault, &mut w.user_input),
        Err(UmbraError::UnauthorizedOwner)
    );
    assert_eq!(cancel_order(&mut order, &key(OWNER), &mut order_vault, &mut w.user_input), Ok(()));
    assert_eq!(w.user_input.amount, 5000);
    assert_eq!(order.status, OrderStatus::Cancelled);
    assert!(!order_vault.is_open);
    assert_eq!(
        cancel_order(&mut order, &key(OWNER), &mut order_vault, &mut w.user_input),
        Err(UmbraError::OrderNotCancellable)
    );
    assert_eq!(w.user_input.amount, 5000);
}

#[test]
fn claim_twice_fails_already_claimed() {
    let mut w = world();
    let (mut order, mut order_vault) = submit(&mut w, 64, 90).unwrap();
    let mut output_vault = execute_order(
        &mut w.config, &mut order, &key(SOLVER), &mut order_vault, key(OUTPUT_VAULT),
        &mut w.solver_input, &mut w.solver_output, &mut w.fee_vault, 100, 4000, NOW,
    )
    .unwrap();
    assert_eq!(claim_output(&order, &key(OWNER), &mut output_vault, &mut w.user_output), Ok(3998));
    assert_eq!(
        claim_output(&order, &key(OWNER), &mut output_vault, &mut w.user_output),
        Err(UmbraError::AlreadyClaimed)
    );
    assert_eq!(w.user_output.amount, 3998);
}

#[test]
fn claim_from_empty_vault_fails_already_claimed() {
    let mut w = world();
    let (mut order, mut order_vault) = submit(&mut w, 64, 50).unwrap();
    let mut output_vault = execute_order(
        &mut w.config, &mut order, &key(SOLVER), &mut order_vault, key(OUTPUT_VAULT),
        &mut w.solver_input, &mut w.solver_output, &mut w.fee_vault, 0, 0, NOW,
    )
    .unwrap();
    assert_eq!(output_vault.amount, 0);
    assert_eq!(
        claim_output(&order, &key(OWNER), &mut output_vault, &mut w.user_output),
        Err(UmbraError::AlreadyClaimed)
    );
}

#[test]
fn slippage_leaves_everything_unchanged() {
    let mut w = world();
    let (mut order, mut order_vault) = submit(&mut w, 64, 50).unwrap();
    let result = execute_order(
        &mut w.config, &mut order, &key(SOLVER), &mut order_vault, key(OUTPUT_VAULT),
        &mut w.solver_input, &mut w.solver_output, &mut w.fee_vault, 1500, 1499, NOW,
    );
    assert_eq!(result.err(), Some(UmbraError::SlippageExceeded));
    assert_eq!(order_vault.amount, 1000);
    assert_eq!(w.solver_input.amount, 0);
    assert_eq!(w.solver_output.amount, 1_000_000);
    assert_eq!(w.fee_vault.amount, 0);
    assert_eq!(w.config.total_orders, 0);
    assert_eq!(order.status, OrderStatus::Pending);
}

#[test]
fn execute_authorization_and_state() {
    let mut w = world();
    let (mut order, mut order_vault) = submit(&mut w, 64, 50).unwrap();
    let wrong_solver = execute_order(
        &mut w.config, &mut order, &key(99), &mut order_vault, key(OUTPUT_VAULT),
        &mut w.solver_input, &mut w.solver_output, &mut w.fee_vault, 0, 10, NOW,
    );
    assert_eq!(wrong_solver.err(), Some(UmbraError::UnauthorizedSolver));
    let mut other_fee_vault = TokenAccount::new(key(77), key(MINT_OUT), key(ADMIN), 0);
    let wrong_fee_vault = execute_order(
        &mut w.config, &mut order, &key(SOLVER), &mut order_vault, key(OUTPUT_VAULT),
        &mut w.solver_input, &mut w.solver_output, &mut other_fee_vault, 0, 10, NOW,
    );
    assert_eq!(wrong_fee_vault.err(), Some(UmbraError::InvalidFeeVault));
    execute_order(
        &mut w.config, &mut order, &key(SOLVER), &mut order_vault, key(OUTPUT_VAULT),
        &mut w.solver_input, &mut w.solver_output, &mut w.fee_vault, 0, 10, NOW,
    )
    .unwrap();
    let again = execute_order(
        &mut w.config, &mut order, &key(SOLVER), &mut order_vault, key(OUTPUT_VAULT),
        &mut w.solver_input, &mut w.solver_output, &mut w.fee_vault, 0, 10, NOW,
    );
    assert_eq!(again.err(), Some(UmbraError::OrderNotExecutable));
    assert_eq!(w.config.total_orders, 1);
}

#[test]
fn update_tier_rules() {
    let mut w = world();
    assert_eq!(
        update_tier(&mut w.config, &key(99), 1, 20, 30, 1, 3, 0),
        Err(UmbraError::UnauthorizedOwner)
    );
    assert_eq!(
        update_tier(&mut w.config, &key(ADMIN), 5, 20, 30, 1, 3, 0),
        Err(UmbraError::InvalidTierConfig)
    );
    assert_eq!(
        update_tier(&mut w.config, &key(ADMIN), 1, 101, 30, 1, 3, 0),
        Err(UmbraError::InvalidFairScore)
    );
    assert_eq!(
        update_tier(&mut w.config, &key(ADMIN), 1, 20, 501, 1, 3, 0),
        Err(UmbraError::InvalidTierConfig)
    );
    assert_eq!(update_tier(&mut w.config, &key(ADMIN), 1, 25, 500, 9, 31, 7), Ok(()));
    assert_eq!(w.config.tiers[1].min_fairscore, 25);
    assert_eq!(w.config.tiers[1].fee_bps, 500);
    assert_eq!(w.config.tiers[1].mev_protection_level, MevProtectionLevel::Priority);
    assert_eq!(w.config.get_tier_index(24), 0);
    assert_eq!(w.config.get_tier_index(25), 1);
}

fn identity(level: u8) -> Vec<u8> {
    let mut data = vec![0u8; 220];
    data[TIER_OFFSET] = level;
    data
}

#[test]
fn sovereign_submission_terms() {
    let mut w = world();
    let (order, vault) = submit_order_with_sovereign(
        &w.config, &w.accounts, &mut w.user_input, &key(OWNER), &identity(5), 8, 1000, 16,
        vec![1; 40], vec![], NOW,
    )
    .unwrap();
    // Diamond: base 5 bps less a 5000 bps discount, floored at zero.
    assert_eq!(order.user_tier, 4);
    assert_eq!(order.fee_bps_applied, 0);
    assert_eq!(order.mev_protection_level, MevProtectionLevel::Priority);
    assert_eq!(order.fairscore_at_creation, 90);
    assert_eq!(order.order_type, OrderType::Dark);
    assert_eq!(vault.amount, 1000);
}

#[test]
fn sovereign_submission_rejections() {
    let mut w = world();
    let wrong_identity = submit_order_with_sovereign(
        &w.config, &w.accounts, &mut w.user_input, &key(98), &identity(5), 8, 1000, 1,
        vec![1; 40], vec![], NOW,
    );
    assert_eq!(wrong_identity.err(), Some(UmbraError::InvalidSovereignIdentity));
    let dark_without_access = submit_order_with_sovereign(
        &w.config, &w.accounts, &mut w.user_input, &key(OWNER), &identity(3), 8, 1000, 16,
        vec![1; 40], vec![], NOW,
    );
    assert_eq!(dark_without_access.err(), Some(UmbraError::OrderTypeNotAllowed));
    w.user_input.amount = 2_000_000_000;
    let too_large = submit_order_with_sovereign(
        &w.config, &w.accounts, &mut w.user_input, &key(OWNER), &[], 8, 1_000_000_001, 1,
        vec![1; 40], vec![], NOW,
    );
    assert_eq!(too_large.err(), Some(UmbraError::OrderExceedsTierLimit));
    let (order, _) = submit_order_with_sovereign(
        &w.config, &w.accounts, &mut w.user_input, &key(OWNER), &identity(2), 8, 1000, 2,
        vec![1; 40], vec![], NOW,
    )
    .unwrap();
    // Silver maps to index 1 (30 bps); its 500 bps discount floors the fee at zero.
    assert_eq!(order.user_tier, 1);
    assert_eq!(order.fee_bps_applied, 0);
    assert_eq!(order.mev_protection_level, MevProtectionLevel::Basic);
}

#[test]
fn calculate_fee_uses_frozen_rate() {
    let mut w = world();
    let (order, _) = submit(&mut w, 64, 10).unwrap();
    assert_eq!(order.calculate_fee(2000), 10);
    assert!(order.is_cancellable());
    assert!(order.is_executable());
    assert!(!order.is_claimable());
}
