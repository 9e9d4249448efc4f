use umbra_swap::dark::{initialize_pool, DarkPool};
use umbra_swap::errors::DarkFlowError;
use umbra_swap::keys::Pubkey;
use umbra_swap::ledger::TokenAccount;
use umbra_swap::liquidity::{
    add_liquidity_encrypted, create_nullifier, remove_liquidity_private, EncryptedPosition, Side,
};

fn key(b: u8) -> Pubkey {
    Pubkey::new([b; 32])
}

const POOL: u8 = 1;
const MINT_A: u8 = 3;
const MINT_B: u8 = 4;
const LP: u8 = 10;

struct Setup {
    pool: DarkPool,
    vault_a: TokenAccount,
    vault_b: TokenAccount,
    lp_a: TokenAccount,
    lp_b: TokenAccount,
}

fn setup() -> Setup {
    let (pool, vault_a, vault_b) = initialize_pool(
        key(POOL), key(2), key(MINT_A), key(MINT_B), key(5), key(6), [7u8; 32], 30, 0,
    )
    .unwrap();
    Setup {
        pool,
        vault_a,
        vault_b,
        lp_a: TokenAccount::new(key(20), key(MINT_A), key(LP), 10_000),
        lp_b: TokenAccount::new(key(21), key(MINT_B), key(LP), 10_000),
    }
}

fn deposit(s: &mut Setup, a: u64, b: u64) -> Result<EncryptedPosition, DarkFlowError> {
    add_liquidity_encrypted(
        &mut s.pool,
        &key(LP),
        Side { provider: &mut s.lp_a, vault: &mut s.vault_a },
        Side { provider: &mut s.lp_b, vault: &mut s.vault_b },
        vec![1; 64],
        [8u8; 32],
        a,
        b,
        100,
    )
}

#[test]
fn nullifier_is_commitment_xor_owner() {
    let mut commitment = [0u8; 32];
    commitment[0] = 0xF0;
    commitment[31] = 0x0F;
    let n = create_nullifier(&commitment, &key(0xFF));
    assert_eq!(n[0], 0x0F);
    assert_eq!(n[31], 0xF0);
    assert_eq!(n[5], 0xFF);
}

#[test]
fn deposit_opens_position() {
    let mut s = setup();
    let position = deposit(&mut s, 4000, 0).unwrap();
    assert!(position.is_active);
    assert_eq!(position.owner, key(LP));
    assert_eq!(position.nullifier, [8u8 ^ LP; 32]);
    assert_eq!(s.vault_a.amount, 4000);
    assert_eq!(s.vault_b.amount, 0);
    assert_eq!(s.lp_a.amount, 6000);
    assert_eq!(s.pool.position_count, 1);
    assert_eq!(deposit(&mut s, 0, 0).err(), Some(DarkFlowError::InvalidAmount));
    assert_eq!(deposit(&mut s, 0, 10_001).err(), Some(DarkFlowError::InsufficientBalance));
    assert_eq!(s.pool.position_count, 1);
}

#[test]
fn withdrawal_takes_share_times_percentage() {
    let mut s = setup();
    let mut first = deposit(&mut s, 4000, 2000).unwrap();
    let _second = deposit(&mut s, 4000, 2000).unwrap();
    assert_eq!(s.pool.position_count, 2);
    // Equal split between two positions: 5000 bps each; half of that.
    let paid = remove_liquidity_private(
        &mut s.pool,
        &mut first,
        &key(LP),
        Side { provider: &mut s.lp_a, vault: &mut s.vault_a },
        Side { provider: &mut s.lp_b, vault: &mut s.vault_b },
        [8u8; 32],
        &[0u8; 32],
        5000,
        200,
    );
    assert_eq!(paid, Ok((2000, 1000)));
    assert!(first.is_active);
    assert_eq!(s.pool.position_count, 2);
    let full = remove_liquidity_private(
        &mut s.pool,
        &mut first,
        &key(LP),
        Side { provider: &mut s.lp_a, vault: &mut s.vault_a },
        Side { provider: &mut s.lp_b, vault: &mut s.vault_b },
        [8u8; 32],
        &[0u8; 32],
        10000,
        300,
    );
    assert_eq!(full, Ok((3000, 1500)));
    assert!(!first.is_active);
    assert_eq!(s.pool.position_count, 1);
}

#[test]
fn withdrawal_rejections() {
    let mut s = setup();
    let mut position = deposit(&mut s, 100, 100).unwrap();
    let wrong_commitment = remove_liquidity_private(
        &mut s.pool,
        &mut position,
        &key(LP),
        Side { provider: &mut s.lp_a, vault: &mut s.vault_a },
        Side { provider: &mut s.lp_b, vault: &mut s.vault_b },
        [9u8; 32],
        &[0u8; 32],
        100,
        1,
    );
    assert_eq!(wrong_commitment, Err(DarkFlowError::InvalidCommitment));
    let zero_percent = remove_liquidity_private(
        &mut s.pool,
        &mut position,
        &key(LP),
        Side { provider: &mut s.lp_a, vault: &mut s.vault_a },
        Side { provider: &mut s.lp_b, vault: &mut s.vault_b },
        [8u8; 32],
        &[0u8; 32],
        0,
        1,
    );
    assert_eq!(zero_percent, Err(DarkFlowError::InvalidAmount));
    let stranger = remove_liquidity_private(
        &mut s.pool,
        &mut position,
        &key(99),
        Side { provider: &mut s.lp_a, vault: &mut s.vault_a },
        Side { provider: &mut s.lp_b, vault: &mut s.vault_b },
        [8u8; 32],
        &[0u8; 32],
        100,
        1,
    );
    assert_eq!(stranger, Err(DarkFlowError::Unauthorized));
    assert_eq!(s.vault_a.amount, 100);
}
