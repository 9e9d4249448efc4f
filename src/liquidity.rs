//! Encrypted liquidity positions in a dark pool: deposits whose size only
//! the provider knows, and withdrawals by proof of ownership.

use vstd::prelude::*;
use crate::dark::{encrypted_len_ok, proof_admissible, DarkPool, MAX_ENCRYPTED_DATA, MIN_PROOF_SIZE};
use crate::errors::DarkFlowError;
use crate::keys::{bytes32_eq, is_all_zero, is_zero_bytes, Pubkey};
use crate::ledger::{transfer, TokenAccount};

verus! {

/// A liquidity position whose amounts are encrypted to its owner.
#[derive(Debug, Clone)]
pub struct EncryptedPosition {
    pub owner: Pubkey,
    pub pool: Pubkey,
    pub encrypted_data: Vec<u8>,
    /// Commitment to the position's amounts.
    pub commitment: [u8; 32],
    /// Derived from the commitment and the owner; guards double withdrawal.
    pub nullifier: [u8; 32],
    pub created_at: i64,
    pub updated_at: i64,
    pub is_active: bool,
}

impl EncryptedPosition {
    pub fn new(
        owner: Pubkey,
        pool: Pubkey,
        encrypted_data: Vec<u8>,
        commitment: [u8; 32],
        nullifier: [u8; 32],
        now: i64,
    ) -> (r: EncryptedPosition)
        ensures
            r.owner == owner,
            r.pool == pool,
            r.encrypted_data@ == encrypted_data@,
            r.commitment == commitment,
            r.nullifier == nullifier,
            r.created_at == now,
            r.updated_at == now,
            r.is_active,
    {
        EncryptedPosition {
            owner,
            pool,
            encrypted_data,
            commitment,
            nullifier,
            created_at: now,
            updated_at: now,
            is_active: true,
        }
    }

    /// Marks the position withdrawn.
    pub fn deactivate(&mut self, now: i64)
        ensures
            *final(self) == (EncryptedPosition { is_active: false, updated_at: now, ..*old(self) }),
    {
        self.is_active = false;
        self.updated_at = now;
    }

    /// Replaces the encrypted amounts and their commitment.
    pub fn update_encrypted_data(&mut self, new_data: Vec<u8>, new_commitment: [u8; 32], now: i64)
        ensures
            final(self).encrypted_data@ == new_data@,
            *final(self) == (EncryptedPosition {
                encrypted_data: final(self).encrypted_data,
                commitment: new_commitment,
                updated_at: now,
                ..*old(self)
            }),
    {
        self.encrypted_data = new_data;
        self.commitment = new_commitment;
        self.updated_at = now;
    }
}

/// The nullifier of a position: its commitment XOR its owner's key, byte
/// by byte.
pub fn create_nullifier(commitment: &[u8; 32], owner: &Pubkey) -> (r: [u8; 32])
    ensures
        forall|i: int| 0 <= i < 32 ==> r@[i] == commitment@[i] ^ owner@[i],
{
    let mut nullifier = [0u8; 32];
    let mut i: usize = 0;
    while i < 32
        invariant
            0 <= i <= 32,
            nullifier@.len() == 32,
            forall|j: int| 0 <= j < i ==> nullifier@[j] == commitment@[j] ^ owner@[j],
        decreases 32 - i,
    {
        nullifier[i] = commitment[i] ^ owner.bytes[i];
        i += 1;
    }
    nullifier
}

pub fn verify_position_proof(proof: &[u8], commitment: &[u8; 32]) -> (r: bool)
    ensures
        r == proof_admissible(proof@),
{
    proof.len() >= MIN_PROOF_SIZE
}

/// The provider's and the pool's accounts for one side of a deposit or
/// withdrawal.
pub struct Side<'a> {
    pub provider: &'a mut TokenAccount,
    pub vault: &'a mut TokenAccount,
}

/// Whether a deposit of `amount` on one side can be made: nothing to do
/// for zero, else the provider's account pays into the pool's vault.
pub open spec fn side_error(pool: DarkPool, mint: Pubkey, lp: Pubkey, provider: TokenAccount, vault: TokenAccount, amount: u64) -> Option<DarkFlowError> {
    if provider.owner@ != lp@ || vault.owner@ != pool.key@ {
        Some(DarkFlowError::Unauthorized)
    } else if provider.mint@ != mint@ || vault.mint@ != mint@ {
        Some(DarkFlowError::InvalidTokenMint)
    } else if amount > 0 && (!provider.is_open || !vault.is_open || provider.amount < amount) {
        Some(DarkFlowError::InsufficientBalance)
    } else if vault.amount + amount > u64::MAX {
        Some(DarkFlowError::MathOverflow)
    } else {
        None
    }
}

/// Why a deposit is refused, if it is.
pub open spec fn add_liquidity_error(
    pool: DarkPool,
    lp: Pubkey,
    side_a: (TokenAccount, TokenAccount),
    side_b: (TokenAccount, TokenAccount),
    data_len: int,
    commitment: Seq<u8>,
    amount_a: u64,
    amount_b: u64,
) -> Option<DarkFlowError> {
    if !pool.is_active {
        Some(DarkFlowError::PoolNotActive)
    } else if amount_a == 0 && amount_b == 0 {
        Some(DarkFlowError::InvalidAmount)
    } else if !encrypted_len_ok(data_len) {
        Some(DarkFlowError::InvalidEncryptedData)
    } else if is_zero_bytes(commitment) {
        Some(DarkFlowError::InvalidCommitment)
    } else if side_error(pool, pool.token_a_mint, lp, side_a.0, side_a.1, amount_a) is Some {
        side_error(pool, pool.token_a_mint, lp, side_a.0, side_a.1, amount_a)
    } else {
        side_error(pool, pool.token_b_mint, lp, side_b.0, side_b.1, amount_b)
    }
}

fn check_side(pool: &DarkPool, mint: &Pubkey, lp: &Pubkey, provider: &TokenAccount, vault: &TokenAccount, amount: u64) -> (r: Result<(), DarkFlowError>)
    ensures
        match side_error(*pool, *mint, *lp, *provider, *vault, amount) {
            Some(e) => r == Err::<(), DarkFlowError>(e),
            None => r is Ok,
        },
{
    if !provider.owner.equals(lp) || !vault.owner.equals(&pool.key) {
        return Err(DarkFlowError::Unauthorized);
    }
    if !provider.mint.equals(mint) || !vault.mint.equals(mint) {
        return Err(DarkFlowError::InvalidTokenMint);
    }
    if amount > 0 && (!provider.is_open || !vault.is_open || provider.amount
        < amount) {
        return Err(DarkFlowError::InsufficientBalance);
    }
    if vault.amount > u64::MAX - amount {
        return Err(DarkFlowError::MathOverflow);
    }
    Ok(())
}

/// Deposits `amount_a` and `amount_b` (either may be zero, not both) into
/// the pool's vaults and opens a position holding only the encrypted
/// amounts, its commitment, and its nullifier.
pub fn add_liquidity_encrypted(
    pool: &mut DarkPool,
    lp: &Pubkey,
    side_a: Side,
    side_b: Side,
    encrypted_amount: Vec<u8>,
    commitment: [u8; 32],
    amount_a: u64,
    amount_b: u64,
    now: i64,
) -> (r: Result<EncryptedPosition, DarkFlowError>)
    ensures
        ({
            let error = add_liquidity_error(
                *old(pool),
                *lp,
                (*old(side_a.provider), *old(side_a.vault)),
                (*old(side_b.provider), *old(side_b.vault)),
                encrypted_amount@.len() as int,
                commitment@,
                amount_a,
                amount_b,
            );
            match r {
                Err(e) => {
                    &&& error == Some(e)
                    &&& *final(pool) == *old(pool)
                    &&& *final(side_a.provider) == *old(side_a.provider)
                    &&& *final(side_a.vault) == *old(side_a.vault)
                    &&& *final(side_b.provider) == *old(side_b.provider)
                    &&& *final(side_b.vault) == *old(side_b.vault)
                },
                Ok(position) => {
                    &&& error is None
                    &&& position.owner == *lp
                    &&& position.pool == old(pool).key
                    &&& position.encrypted_data@ == encrypted_amount@
                    &&& position.commitment == commitment
                    &&& forall|i: int|
                        0 <= i < 32 ==> position.nullifier@[i] == commitment@[i] ^ lp@[i]
                    &&& position.is_active
                    &&& position.created_at == now
                    &&& final(side_a.provider).amount == old(side_a.provider).amount - amount_a
                    &&& final(side_a.vault).amount == old(side_a.vault).amount + amount_a
                    &&& final(side_b.provider).amount == old(side_b.provider).amount - amount_b
                    &&& final(side_b.vault).amount == old(side_b.vault).amount + amount_b
                    &&& final(pool).position_count == (if old(pool).position_count == u64::MAX {
                        u64::MAX
                    } else {
                        (old(pool).position_count + 1) as u64
                    })
                },
            }
        }),
{
    let Side { provider: provider_a, vault: vault_a } = side_a;
    let Side { provider: provider_b, vault: vault_b } = side_b;
    if !pool.is_active {
        return Err(DarkFlowError::PoolNotActive);
    }
    if amount_a == 0 && amount_b == 0 {
        return Err(DarkFlowError::InvalidAmount);
    }
    if encrypted_amount.len() == 0 || encrypted_amount.len() > MAX_ENCRYPTED_DATA {
        return Err(DarkFlowError::InvalidEncryptedData);
    }
    if is_all_zero(&commitment) {
        return Err(DarkFlowError::InvalidCommitment);
    }
    let mint_a = pool.token_a_mint;
    let mint_b = pool.token_b_mint;
    match check_side(pool, &mint_a, lp, provider_a, vault_a, amount_a) {
        Ok(()) => {},
        Err(e) => {
            return Err(e);
        },
    }
    match check_side(pool, &mint_b, lp, provider_b, vault_b, amount_b) {
        Ok(()) => {},
        Err(e) => {
            return Err(e);
        },
    }
    if amount_a > 0 {
        let moved = transfer(provider_a, vault_a, lp, amount_a);
        assert(moved is Ok);
    }
    if amount_b > 0 {
        let moved = transfer(provider_b, vault_b, lp, amount_b);
        assert(moved is Ok);
    }
    let nullifier = create_nullifier(&commitment, lp);
    let position = EncryptedPosition::new(
        *lp,
        pool.key,
        encrypted_amount,
        commitment,
        nullifier,
        now,
    );
    pool.increment_position_count();
    Ok(position)
}

/// A position's share of the pool in basis points: an equal split among
/// all positions.
pub open spec fn position_share(position_count: u64) -> int {
    10000int / (if position_count == 0 {
        1int
    } else {
        position_count as int
    })
}

/// What a withdrawal of `percentage_bps` of a position's share takes from
/// a vault holding `balance`.
pub open spec fn withdrawal_amount(balance: u64, position_count: u64, percentage_bps: u16) -> int {
    (balance as int) * position_share(position_count) * (percentage_bps as int) / 100000000int
}

fn compute_withdrawal(balance: u64, position_count: u64, percentage_bps: u16) -> (r: u64)
    requires
        percentage_bps <= 10000,
    ensures
        r == withdrawal_amount(balance, position_count, percentage_bps),
        r <= balance,
{
    let count: u64 = if position_count == 0 {
        1
    } else {
        position_count
    };
    let share: u64 = 10000 / count;
    proof {
        assert(share <= 10000);
        assert((balance as int) * (share as int) <= 0xffff_ffff_ffff_ffff * 10000)
            by (nonlinear_arith)
            requires balance <= 0xffff_ffff_ffff_ffffu64, share <= 10000;
        assert((balance as int) * (share as int) * (percentage_bps as int)
            <= 0xffff_ffff_ffff_ffff * 10000 * 10000) by (nonlinear_arith)
            requires
                (balance as int) * (share as int) <= 0xffff_ffff_ffff_ffff * 10000,
                0 <= (balance as int) * (share as int),
                percentage_bps <= 10000;
        assert((balance as int) * (share as int) * (percentage_bps as int) <= (balance as int)
            * 10000 * 10000) by (nonlinear_arith)
            requires share <= 10000, percentage_bps <= 10000, balance >= 0;
        vstd::arithmetic::div_mod::lemma_div_is_ordered(
            (balance as int) * (share as int) * (percentage_bps as int),
            (balance as int) * 10000 * 10000,
            100000000int,
        );
        assert((balance as int) * 10000 * 10000 == 100000000 * (balance as int))
            by (nonlinear_arith);
        vstd::arithmetic::div_mod::lemma_div_multiples_vanish(balance as int, 100000000);
        assert(0 <= (balance as int) * (share as int) * (percentage_bps as int))
            by (nonlinear_arith)
            requires balance >= 0, share >= 0, percentage_bps >= 0;
    }
    let product: u128 = (balance as u128) * (share as u128) * (percentage_bps as u128);
    (product / 100_000_000u128) as u64
}

/// Why a withdrawal is refused, if it is.
pub open spec fn remove_liquidity_error(
    pool: DarkPool,
    position: EncryptedPosition,
    owner: Pubkey,
    side_a: (TokenAccount, TokenAccount),
    side_b: (TokenAccount, TokenAccount),
    position_commitment: Seq<u8>,
    zk_proof: Seq<u8>,
    withdraw_percentage_bps: u16,
) -> Option<DarkFlowError> {
    let withdraw_a = withdrawal_amount(side_a.1.amount, pool.position_count, withdraw_percentage_bps);
    let withdraw_b = withdrawal_amount(side_b.1.amount, pool.position_count, withdraw_percentage_bps);
    if position.owner@ != owner@ || position.pool@ != pool.key@ {
        Some(DarkFlowError::Unauthorized)
    } else if !pool.is_active {
        Some(DarkFlowError::PoolNotActive)
    } else if !position.is_active {
        Some(DarkFlowError::PositionNotActive)
    } else if position.commitment@ != position_commitment {
        Some(DarkFlowError::InvalidCommitment)
    } else if !proof_admissible(zk_proof) {
        Some(DarkFlowError::InvalidZkProof)
    } else if withdraw_percentage_bps == 0 || withdraw_percentage_bps > 10000 {
        Some(DarkFlowError::InvalidAmount)
    } else if side_a.0.owner@ != owner@ || side_b.0.owner@ != owner@ || side_a.1.owner@
        != pool.key@ || side_b.1.owner@ != pool.key@ {
        Some(DarkFlowError::Unauthorized)
    } else if side_a.0.mint@ != pool.token_a_mint@ || side_a.1.mint@ != pool.token_a_mint@
        || side_b.0.mint@ != pool.token_b_mint@ || side_b.1.mint@ != pool.token_b_mint@ {
        Some(DarkFlowError::InvalidTokenMint)
    } else if !side_a.0.is_open || !side_a.1.is_open || !side_b.0.is_open || !side_b.1.is_open {
        Some(DarkFlowError::InsufficientBalance)
    } else if side_a.0.amount + withdraw_a > u64::MAX || side_b.0.amount + withdraw_b > u64::MAX {
        Some(DarkFlowError::MathOverflow)
    } else {
        None
    }
}

/// Withdraws `withdraw_percentage_bps` of a position's share of each vault
/// to its owner, on a proof of ownership. The share is an equal split
/// among the pool's positions; a full withdrawal retires the position and
/// lowers the position count. Returns the two amounts paid.
pub fn remove_liquidity_private(
    pool: &mut DarkPool,
    position: &mut EncryptedPosition,
    owner: &Pubkey,
    side_a: Side,
    side_b: Side,
    position_commitment: [u8; 32],
    zk_proof: &[u8],
    withdraw_percentage_bps: u16,
    now: i64,
) -> (r: Result<(u64, u64), DarkFlowError>)
    ensures
        ({
            let error = remove_liquidity_error(
                *old(pool),
                *old(position),
                *owner,
                (*old(side_a.provider), *old(side_a.vault)),
                (*old(side_b.provider), *old(side_b.vault)),
                position_commitment@,
                zk_proof@,
                withdraw_percentage_bps,
            );
            let withdraw_a = withdrawal_amount(
                old(side_a.vault).amount,
                old(pool).position_count,
                withdraw_percentage_bps,
            );
            let withdraw_b = withdrawal_amount(
                old(side_b.vault).amount,
                old(pool).position_count,
                withdraw_percentage_bps,
            );
            let full = withdraw_percentage_bps == 10000;
            match r {
                Err(e) => {
                    &&& error == Some(e)
                    &&& *final(pool) == *old(pool)
                    &&& *final(position) == *old(position)
                    &&& *final(side_a.provider) == *old(side_a.provider)
                    &&& *final(side_a.vault) == *old(side_a.vault)
                    &&& *final(side_b.provider) == *old(side_b.provider)
                    &&& *final(side_b.vault) == *old(side_b.vault)
                },
                Ok((paid_a, paid_b)) => {
                    &&& error is None
                    &&& paid_a == withdraw_a
                    &&& paid_b == withdraw_b
                    &&& final(side_a.provider).amount == old(side_a.provider).amount + withdraw_a
                    &&& final(side_a.vault).amount == old(side_a.vault).amount - withdraw_a
                    &&& final(side_b.provider).amount == old(side_b.provider).amount + withdraw_b
                    &&& final(side_b.vault).amount == old(side_b.vault).amount - withdraw_b
                    &&& final(position).is_active == !full
                    &&& final(pool).position_count == (if full && old(pool).position_count > 0 {
                        (old(pool).position_count - 1) as u64
                    } else {
                        old(pool).position_count
                    })
                },
            }
        }),
{
    let Side { provider: provider_a, vault: vault_a } = side_a;
    let Side { provider: provider_b, vault: vault_b } = side_b;
    if !position.owner.equals(owner) || !position.pool.equals(&pool.key) {
        return Err(DarkFlowError::Unauthorized);
    }
    if !pool.is_active {
        return Err(DarkFlowError::PoolNotActive);
    }
    if !position.is_active {
        return Err(DarkFlowError::PositionNotActive);
    }
    if !bytes32_eq(&position.commitment, &position_commitment) {
        return Err(DarkFlowError::InvalidCommitment);
    }
    if !verify_position_proof(zk_proof, &position_commitment) {
        return Err(DarkFlowError::InvalidZkProof);
    }
    if withdraw_percentage_bps == 0 || withdraw_percentage_bps > 10000 {
        return Err(DarkFlowError::InvalidAmount);
    }
    if !provider_a.owner.equals(owner) || !provider_b.owner.equals(owner)
        || !vault_a.owner.equals(&pool.key) || !vault_b.owner.equals(&pool.key) {
        return Err(DarkFlowError::Unauthorized);
    }
    if !provider_a.mint.equals(&pool.token_a_mint) || !vault_a.mint.equals(&pool.token_a_mint)
        || !provider_b.mint.equals(&pool.token_b_mint) || !vault_b.mint.equals(
        &pool.token_b_mint,
    ) {
        return Err(DarkFlowError::InvalidTokenMint);
    }
    if !provider_a.is_open || !vault_a.is_open || !provider_b.is_open || !vault_b.is_open {
        return Err(DarkFlowError::InsufficientBalance);
    }
    let withdraw_a = compute_withdrawal(vault_a.amount, pool.position_count, withdraw_percentage_bps);
    let withdraw_b = compute_withdrawal(vault_b.amount, pool.position_count, withdraw_percentage_bps);
    if provider_a.amount > u64::MAX - withdraw_a || provider_b.amount > u64::MAX - withdraw_b {
        return Err(DarkFlowError::MathOverflow);
    }
    let pool_key = pool.key;
    let paid_a = transfer(vault_a, provider_a, &pool_key, withdraw_a);
    assert(paid_a is Ok);
    let paid_b = transfer(vault_b, provider_b, &pool_key, withdraw_b);
    assert(paid_b is Ok);
    if withdraw_percentage_bps == 10000 {
        pool.decrement_position_count();
        position.deactivate(now);
    }
    Ok((withdraw_a, withdraw_b))
}

} // verus!
