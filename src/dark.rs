//! Dark pool: a constant-product pool whose orders carry encrypted
//! parameters, executed by a solver under a single-use nullifier.

use vstd::prelude::*;
use crate::errors::DarkFlowError;
use crate::fees::{constant_product_output, constant_product_spec};
use crate::keys::{is_all_zero, is_zero_bytes, Pubkey};
use crate::ledger::{release_and_close, transfer, TokenAccount};
use crate::replay::NullifierSet;

verus! {

/// Most bytes of encrypted order or position data.
pub const MAX_ENCRYPTED_DATA: usize = 256;

/// Fewest bytes a proof may hold to be considered at all.
pub const MIN_PROOF_SIZE: usize = 32;

/// A dark liquidity pool: only aggregates are public.
#[derive(Debug, Clone, Copy)]
pub struct DarkPool {
    /// The pool's own key: the authority over its vaults.
    pub key: Pubkey,
    pub authority: Pubkey,
    pub token_a_mint: Pubkey,
    pub token_b_mint: Pubkey,
    /// Key that liquidity providers encrypt their deposits to.
    pub encryption_pubkey: [u8; 32],
    pub fee_rate_bps: u16,
    pub position_count: u64,
    pub order_count: u64,
    pub total_volume_a: u64,
    pub total_volume_b: u64,
    pub state_commitment: [u8; 32],
    pub last_update: i64,
    pub is_active: bool,
}

/// Public aggregates of a pool; no single position shows through.
#[derive(Debug, Clone, Copy)]
pub struct PoolAggregates {
    pub tvl_token_a: u64,
    pub tvl_token_b: u64,
    pub lp_count: u64,
    pub volume_24h: u64,
    pub utilization_bps: u16,
    pub avg_position_commitment: [u8; 32],
}

pub open spec fn saturating_add_spec(a: u64, b: u64) -> u64 {
    if a + b > u64::MAX {
        u64::MAX
    } else {
        (a + b) as u64
    }
}

impl DarkPool {
    pub fn update_state_commitment(&mut self, new_commitment: [u8; 32], now: i64)
        ensures
            *final(self) == (DarkPool {
                state_commitment: new_commitment,
                last_update: now,
                ..*old(self)
            }),
    {
        self.state_commitment = new_commitment;
        self.last_update = now;
    }

    pub fn increment_position_count(&mut self)
        ensures
            *final(self) == (DarkPool {
                position_count: saturating_add_spec(old(self).position_count, 1),
                ..*old(self)
            }),
    {
        self.position_count = self.position_count.saturating_add(1);
    }

    pub fn decrement_position_count(&mut self)
        ensures
            *final(self) == (DarkPool {
                position_count: if old(self).position_count == 0 {
                    0
                } else {
                    (old(self).position_count - 1) as u64
                },
                ..*old(self)
            }),
    {
        self.position_count = self.position_count.saturating_sub(1);
    }

    pub fn increment_order_count(&mut self)
        ensures
            *final(self) == (DarkPool {
                order_count: saturating_add_spec(old(self).order_count, 1),
                ..*old(self)
            }),
    {
        self.order_count = self.order_count.saturating_add(1);
    }

    pub fn add_volume(&mut self, amount_a: u64, amount_b: u64)
        ensures
            *final(self) == (DarkPool {
                total_volume_a: saturating_add_spec(old(self).total_volume_a, amount_a),
                total_volume_b: saturating_add_spec(old(self).total_volume_b, amount_b),
                ..*old(self)
            }),
    {
        self.total_volume_a = self.total_volume_a.saturating_add(amount_a);
        self.total_volume_b = self.total_volume_b.saturating_add(amount_b);
    }
}

/// Why creating a pool is refused, if it is.
pub open spec fn pool_config_error(fee_rate_bps: u16, encryption_pubkey: Seq<u8>) -> Option<DarkFlowError> {
    if fee_rate_bps > 10000 {
        Some(DarkFlowError::InvalidAmount)
    } else if is_zero_bytes(encryption_pubkey) {
        Some(DarkFlowError::InvalidEncryptionKey)
    } else {
        None
    }
}

/// Creates an active, empty pool of two assets, with one empty vault for
/// each owned by the pool.
pub fn initialize_pool(
    pool_key: Pubkey,
    authority: Pubkey,
    token_a_mint: Pubkey,
    token_b_mint: Pubkey,
    vault_a_key: Pubkey,
    vault_b_key: Pubkey,
    pool_encryption_pubkey: [u8; 32],
    fee_rate_bps: u16,
    now: i64,
) -> (r: Result<(DarkPool, TokenAccount, TokenAccount), DarkFlowError>)
    ensures
        match pool_config_error(fee_rate_bps, pool_encryption_pubkey@) {
            Some(e) => r == Err::<(DarkPool, TokenAccount, TokenAccount), DarkFlowError>(e),
            None => r matches Ok((pool, vault_a, vault_b)) && is_zero_bytes(
                pool.state_commitment@,
            ) && pool == (DarkPool {
                key: pool_key,
                authority,
                token_a_mint,
                token_b_mint,
                encryption_pubkey: pool_encryption_pubkey,
                fee_rate_bps,
                position_count: 0,
                order_count: 0,
                total_volume_a: 0,
                total_volume_b: 0,
                state_commitment: pool.state_commitment,
                last_update: now,
                is_active: true,
            }) && vault_a == (TokenAccount {
                key: vault_a_key,
                mint: token_a_mint,
                owner: pool_key,
                amount: 0,
                is_open: true,
            }) && vault_b == (TokenAccount {
                key: vault_b_key,
                mint: token_b_mint,
                owner: pool_key,
                amount: 0,
                is_open: true,
            }),
        },
{
    if fee_rate_bps > 10000 {
        return Err(DarkFlowError::InvalidAmount);
    }
    if is_all_zero(&pool_encryption_pubkey) {
        return Err(DarkFlowError::InvalidEncryptionKey);
    }
    let pool = DarkPool {
        key: pool_key,
        authority,
        token_a_mint,
        token_b_mint,
        encryption_pubkey: pool_encryption_pubkey,
        fee_rate_bps,
        position_count: 0,
        order_count: 0,
        total_volume_a: 0,
        total_volume_b: 0,
        state_commitment: [0u8; 32],
        last_update: now,
        is_active: true,
    };
    let vault_a = TokenAccount::open_vault(vault_a_key, token_a_mint, pool_key);
    let vault_b = TokenAccount::open_vault(vault_b_key, token_b_mint, pool_key);
    Ok((pool, vault_a, vault_b))
}

/// Why a configuration update is refused, if it is.
pub open spec fn update_pool_error(pool: DarkPool, authority: Pubkey, new_fee_rate_bps: Option<u16>, new_encryption_pubkey: Option<[u8; 32]>) -> Option<DarkFlowError> {
    if pool.authority@ != authority@ {
        Some(DarkFlowError::Unauthorized)
    } else if new_fee_rate_bps matches Some(f) && f > 10000 {
        Some(DarkFlowError::InvalidAmount)
    } else if new_encryption_pubkey matches Some(k) && is_zero_bytes(k@) {
        Some(DarkFlowError::InvalidEncryptionKey)
    } else {
        None
    }
}

/// Changes the fee rate and/or the encryption key, as the pool's authority;
/// on any failure nothing changes.
pub fn update_pool_config(
    pool: &mut DarkPool,
    authority: &Pubkey,
    new_fee_rate_bps: Option<u16>,
    new_encryption_pubkey: Option<[u8; 32]>,
    now: i64,
) -> (r: Result<(), DarkFlowError>)
    ensures
        match update_pool_error(*old(pool), *authority, new_fee_rate_bps, new_encryption_pubkey) {
            Some(e) => r == Err::<(), DarkFlowError>(e) && *final(pool) == *old(pool),
            None => r is Ok && *final(pool) == (DarkPool {
                fee_rate_bps: match new_fee_rate_bps {
                    Some(f) => f,
                    None => old(pool).fee_rate_bps,
                },
                encryption_pubkey: match new_encryption_pubkey {
                    Some(k) => k,
                    None => old(pool).encryption_pubkey,
                },
                last_update: now,
                ..*old(pool)
            }),
        },
{
    if !pool.authority.equals(authority) {
        return Err(DarkFlowError::Unauthorized);
    }
    if let Some(fee_rate) = new_fee_rate_bps {
        if fee_rate > 10000 {
            return Err(DarkFlowError::InvalidAmount);
        }
    }
    if let Some(key) = new_encryption_pubkey {
        if is_all_zero(&key) {
            return Err(DarkFlowError::InvalidEncryptionKey);
        }
    }
    if let Some(fee_rate) = new_fee_rate_bps {
        pool.fee_rate_bps = fee_rate;
    }
    if let Some(key) = new_encryption_pubkey {
        pool.encryption_pubkey = key;
    }
    pool.last_update = now;
    Ok(())
}

/// The public aggregates of a pool; volume is the saturating sum of both
/// sides.
pub fn query_pool_aggregates(pool: &DarkPool) -> (r: PoolAggregates)
    ensures
        r == (PoolAggregates {
            tvl_token_a: 0,
            tvl_token_b: 0,
            lp_count: pool.position_count,
            volume_24h: saturating_add_spec(pool.total_volume_a, pool.total_volume_b),
            utilization_bps: 0,
            avg_position_commitment: pool.state_commitment,
        }),
{
    PoolAggregates {
        tvl_token_a: 0,
        tvl_token_b: 0,
        lp_count: pool.position_count,
        volume_24h: pool.total_volume_a.saturating_add(pool.total_volume_b),
        utilization_bps: 0,
        avg_position_commitment: pool.state_commitment,
    }
}

#[derive(Debug, Clone, Copy, PartialEq, Eq, Structural)]
pub enum OrderStatus {
    Pending,
    Filled,
    Cancelled,
    Expired,
}

/// An order whose parameters only the solver can read; its input is
/// escrowed in a vault owned by the order.
#[derive(Debug, Clone)]
pub struct DarkOrder {
    pub maker: Pubkey,
    /// The order's own key: the authority over its escrow.
    pub key: Pubkey,
    pub pool: Pubkey,
    pub input_mint: Pubkey,
    pub output_mint: Pubkey,
    pub encrypted_params: Vec<u8>,
    pub commitment: [u8; 32],
    pub input_amount: u64,
    /// Last moment at which the order may execute.
    pub deadline: i64,
    pub status: OrderStatus,
    pub executed_by: Option<Pubkey>,
    pub executed_at: Option<i64>,
    pub encrypted_output: Vec<u8>,
    pub created_at: i64,
}

impl DarkOrder {
    pub fn new(
        maker: Pubkey,
        key: Pubkey,
        pool: Pubkey,
        input_mint: Pubkey,
        output_mint: Pubkey,
        encrypted_params: Vec<u8>,
        commitment: [u8; 32],
        input_amount: u64,
        deadline: i64,
        now: i64,
    ) -> (r: DarkOrder)
        ensures
            r.maker == maker,
            r.key == key,
            r.pool == pool,
            r.input_mint == input_mint,
            r.output_mint == output_mint,
            r.encrypted_params@ == encrypted_params@,
            r.commitment == commitment,
            r.input_amount == input_amount,
            r.deadline == deadline,
            r.status == OrderStatus::Pending,
            r.executed_by is None,
            r.executed_at is None,
            r.encrypted_output@.len() == 0,
            r.created_at == now,
    {
        DarkOrder {
            maker,
            key,
            pool,
            input_mint,
            output_mint,
            encrypted_params,
            commitment,
            input_amount,
            deadline,
            status: OrderStatus::Pending,
            executed_by: None,
            executed_at: None,
            encrypted_output: Vec::new(),
            created_at: now,
        }
    }

    pub fn is_expired(&self, now: i64) -> (r: bool)
        ensures
            r == (now > self.deadline),
    {
        now > self.deadline
    }

    pub fn can_execute(&self, now: i64) -> (r: bool)
        ensures
            r == (self.status == OrderStatus::Pending && now <= self.deadline),
    {
        self.status == OrderStatus::Pending && !self.is_expired(now)
    }

    pub open spec fn filled(self, solver: Pubkey, encrypted_output: Seq<u8>, now: i64) -> bool {
        &&& self.status == OrderStatus::Filled
        &&& self.executed_by == Some(solver)
        &&& self.executed_at == Some(now)
        &&& self.encrypted_output@ == encrypted_output
    }

    pub fn fill(&mut self, solver: Pubkey, encrypted_output: Vec<u8>, now: i64)
        ensures
            final(self).filled(solver, encrypted_output@, now),
            *final(self) == (DarkOrder {
                status: OrderStatus::Filled,
                executed_by: Some(solver),
                executed_at: Some(now),
                encrypted_output: final(self).encrypted_output,
                ..*old(self)
            }),
    {
        self.status = OrderStatus::Filled;
        self.executed_by = Some(solver);
        self.executed_at = Some(now);
        self.encrypted_output = encrypted_output;
    }

    pub fn cancel(&mut self)
        ensures
            *final(self) == (DarkOrder { status: OrderStatus::Cancelled, ..*old(self) }),
    {
        self.status = OrderStatus::Cancelled;
    }

    pub fn expire(&mut self)
        ensures
            *final(self) == (DarkOrder { status: OrderStatus::Expired, ..*old(self) }),
    {
        self.status = OrderStatus::Expired;
    }
}

/// The byte `k` (0..8) of `amount` in little-endian order.
pub open spec fn le_byte(amount: u64, k: int) -> u8 {
    ((amount >> (8 * k) as u64) & 0xff) as u8
}

/// The output amount for the maker: its 8 little-endian bytes, the place
/// where encryption to the maker's key plugs in.
pub fn encrypt_for_maker(amount: u64, maker: &Pubkey) -> (r: Vec<u8>)
    ensures
        r@.len() == 8,
        forall|k: int| 0 <= k < 8 ==> r@[k] == le_byte(amount, k),
{
    let mut out: Vec<u8> = Vec::new();
    let mut k: u64 = 0;
    while k < 8
        invariant
            k <= 8,
            out@.len() == k,
            forall|j: int| 0 <= j < k ==> out@[j] == le_byte(amount, j),
        decreases 8 - k,
    {
        out.push(((amount >> (8 * k)) & 0xff) as u8);
        k += 1;
    }
    out
}

/// Whether a proof is long enough to be checked at all. Proof checking
/// itself is an outside oracle; this is the length check before it.
pub open spec fn proof_admissible(proof: Seq<u8>) -> bool {
    proof.len() >= MIN_PROOF_SIZE
}

pub fn verify_swap_proof(proof: &[u8], order: &[u8], nullifier: &[u8; 32]) -> (r: bool)
    ensures
        r == proof_admissible(proof@),
{
    proof.len() >= MIN_PROOF_SIZE
}

pub fn verify_execution_proof(proof: &[u8], commitment: &[u8; 32]) -> (r: bool)
    ensures
        r == proof_admissible(proof@),
{
    proof.len() >= MIN_PROOF_SIZE
}

/// Whether encrypted data has an admissible length: 1..=256 bytes.
pub open spec fn encrypted_len_ok(len: int) -> bool {
    0 < len <= MAX_ENCRYPTED_DATA
}

/// The pool's other asset: what an order paying in `input_mint` receives.
pub open spec fn counter_mint(pool: DarkPool, input_mint: Pubkey) -> Pubkey {
    if input_mint@ == pool.token_a_mint@ {
        pool.token_b_mint
    } else {
        pool.token_a_mint
    }
}

/// Why a dark order submission is refused, if it is.
pub open spec fn submit_dark_error(
    pool: DarkPool,
    maker: Pubkey,
    maker_input: TokenAccount,
    params_len: int,
    input_amount: u64,
    deadline: i64,
    now: i64,
) -> Option<DarkFlowError> {
    if !pool.is_active {
        Some(DarkFlowError::PoolNotActive)
    } else if deadline <= now {
        Some(DarkFlowError::DeadlineExceeded)
    } else if input_amount == 0 {
        Some(DarkFlowError::InvalidAmount)
    } else if !encrypted_len_ok(params_len) {
        Some(DarkFlowError::InvalidEncryptedData)
    } else if maker_input.owner@ != maker@ {
        Some(DarkFlowError::Unauthorized)
    } else if maker_input.mint@ != pool.token_a_mint@ && maker_input.mint@ != pool.token_b_mint@ {
        Some(DarkFlowError::InvalidTokenMint)
    } else if !maker_input.is_open || maker_input.amount < input_amount {
        Some(DarkFlowError::InsufficientBalance)
    } else {
        None
    }
}

/// Submits a dark order: escrows `input_amount` from the maker into a new
/// vault owned by the order, whose output is the pool's other asset.
pub fn submit_dark_order(
    pool: &mut DarkPool,
    maker: &Pubkey,
    order_key: Pubkey,
    escrow_key: Pubkey,
    maker_input: &mut TokenAccount,
    encrypted_params: Vec<u8>,
    commitment: [u8; 32],
    input_amount: u64,
    deadline: i64,
    now: i64,
) -> (r: Result<(DarkOrder, TokenAccount), DarkFlowError>)
    ensures
        match r {
            Ok((order, escrow)) => {
                &&& submit_dark_error(
                    *old(pool),
                    *maker,
                    *old(maker_input),
                    encrypted_params@.len() as int,
                    input_amount,
                    deadline,
                    now,
                ) is None
                &&& order.maker == *maker
                &&& order.key == order_key
                &&& order.pool == old(pool).key
                &&& order.input_mint == old(maker_input).mint
                &&& order.output_mint == counter_mint(*old(pool), old(maker_input).mint)
                &&& order.encrypted_params@ == encrypted_params@
                &&& order.commitment == commitment
                &&& order.input_amount == input_amount
                &&& order.deadline == deadline
                &&& order.status == OrderStatus::Pending
                &&& order.executed_by is None
                &&& order.executed_at is None
                &&& order.created_at == now
                &&& escrow == (TokenAccount {
                    key: escrow_key,
                    mint: old(maker_input).mint,
                    owner: order_key,
                    amount: input_amount,
                    is_open: true,
                })
                &&& *final(maker_input) == old(maker_input).with_amount(
                    (old(maker_input).amount - input_amount) as u64,
                )
                &&& *final(pool) == (DarkPool {
                    order_count: saturating_add_spec(old(pool).order_count, 1),
                    ..*old(pool)
                })
            },
            Err(e) => {
                &&& submit_dark_error(
                    *old(pool),
                    *maker,
                    *old(maker_input),
                    encrypted_params@.len() as int,
                    input_amount,
                    deadline,
                    now,
                ) == Some(e)
                &&& *final(pool) == *old(pool)
                &&& *final(maker_input) == *old(maker_input)
            },
        },
{
    if !pool.is_active {
        return Err(DarkFlowError::PoolNotActive);
    }
    if deadline <= now {
        return Err(DarkFlowError::DeadlineExceeded);
    }
    if input_amount == 0 {
        return Err(DarkFlowError::InvalidAmount);
    }
    if encrypted_params.len() == 0 || encrypted_params.len() > MAX_ENCRYPTED_DATA {
        return Err(DarkFlowError::InvalidEncryptedData);
    }
    if !maker_input.owner.equals(maker) {
        return Err(DarkFlowError::Unauthorized);
    }
    let is_a = maker_input.mint.equals(&pool.token_a_mint);
    if !is_a && !maker_input.mint.equals(&pool.token_b_mint) {
        return Err(DarkFlowError::InvalidTokenMint);
    }
    if !maker_input.is_open || maker_input.amount < input_amount {
        return Err(DarkFlowError::InsufficientBalance);
    }
    let input_mint = maker_input.mint;
    let output_mint = if is_a {
        pool.token_b_mint
    } else {
        pool.token_a_mint
    };
    let mut escrow = TokenAccount::open_vault(escrow_key, input_mint, order_key);
    let moved = transfer(maker_input, &mut escrow, maker, input_amount);
    assert(moved is Ok);
    let order = DarkOrder::new(
        *maker,
        order_key,
        pool.key,
        input_mint,
        output_mint,
        encrypted_params,
        commitment,
        input_amount,
        deadline,
        now,
    );
    pool.increment_order_count();
    Ok((order, escrow))
}

/// The accounts of a dark order execution.
pub struct DarkExecution<'a> {
    pub escrow: &'a mut TokenAccount,
    pub vault_input: &'a mut TokenAccount,
    pub vault_output: &'a mut TokenAccount,
    pub maker_output: &'a mut TokenAccount,
}

/// Why a dark order execution is refused before its nullifier is
/// consumed, if it is.
pub open spec fn dark_admission_error(
    pool: DarkPool,
    order: DarkOrder,
    escrow: TokenAccount,
    vault_input: TokenAccount,
    vault_output: TokenAccount,
    maker_output: TokenAccount,
    execution_proof: Seq<u8>,
    now: i64,
) -> Option<DarkFlowError> {
    if order.pool@ != pool.key@ {
        Some(DarkFlowError::Unauthorized)
    } else if !pool.is_active {
        Some(DarkFlowError::PoolNotActive)
    } else if order.status != OrderStatus::Pending || now > order.deadline {
        Some(DarkFlowError::OrderNotPending)
    } else if !proof_admissible(execution_proof) {
        Some(DarkFlowError::InvalidZkProof)
    } else if pool.fee_rate_bps > 10000 {
        Some(DarkFlowError::InvalidAmount)
    } else if escrow.owner@ != order.key@ || vault_input.owner@ != pool.key@ || vault_output.owner@
        != pool.key@ || maker_output.owner@ != order.maker@ {
        Some(DarkFlowError::Unauthorized)
    } else if escrow.mint@ != order.input_mint@ || vault_input.mint@ != order.input_mint@
        || vault_output.mint@ != order.output_mint@ || maker_output.mint@ != order.output_mint@ {
        Some(DarkFlowError::InvalidTokenMint)
    } else {
        None
    }
}

/// Why a dark order execution fails after its nullifier is consumed, if it
/// does.
pub open spec fn dark_settle_error(
    pool: DarkPool,
    order: DarkOrder,
    escrow: TokenAccount,
    vault_input: TokenAccount,
    vault_output: TokenAccount,
    maker_output: TokenAccount,
    decrypted_min_output: u64,
) -> Option<DarkFlowError> {
    let quote = constant_product_spec(
        order.input_amount,
        vault_input.amount,
        vault_output.amount,
        pool.fee_rate_bps,
    );
    match quote {
        Err(e) => Some(e),
        Ok(output) => if output < decrypted_min_output {
            Some(DarkFlowError::SlippageExceeded)
        } else if !escrow.is_open || escrow.amount < order.input_amount || !vault_input.is_open
            || !vault_output.is_open || vault_output.amount < output || !maker_output.is_open {
            Some(DarkFlowError::InsufficientBalance)
        } else if vault_input.amount + order.input_amount > u64::MAX || maker_output.amount
            + output > u64::MAX {
            Some(DarkFlowError::MathOverflow)
        } else {
            None
        },
    }
}

/// Executes a pending dark order as `solver`, under a single-use
/// `nullifier`. After the admission checks, the nullifier is consumed before any
/// funds move and stays consumed even if settlement then fails. Settlement
/// prices the input against the pool's vaults by the constant-product
/// formula, moves the escrow into the pool and the output to the maker,
/// and marks the order filled. Returns the output amount.
pub fn execute_dark_order(
    pool: &mut DarkPool,
    order: &mut DarkOrder,
    solver: &Pubkey,
    accounts: DarkExecution,
    guard: &mut NullifierSet,
    nullifier: [u8; 32],
    decrypted_min_output: u64,
    execution_proof: &[u8],
    now: i64,
) -> (r: Result<u64, DarkFlowError>)
    ensures
        old(guard).contains(nullifier@) ==> {
            &&& r is Err
            &&& *final(guard) == *old(guard)
            &&& *final(accounts.escrow) == *old(accounts.escrow)
            &&& *final(accounts.vault_input) == *old(accounts.vault_input)
            &&& *final(accounts.vault_output) == *old(accounts.vault_output)
            &&& *final(accounts.maker_output) == *old(accounts.maker_output)
        },
        ({
            let admission = dark_admission_error(
                *old(pool),
                *old(order),
                *old(accounts.escrow),
                *old(accounts.vault_input),
                *old(accounts.vault_output),
                *old(accounts.maker_output),
                execution_proof@,
                now,
            );
            let settle = dark_settle_error(
                *old(pool),
                *old(order),
                *old(accounts.escrow),
                *old(accounts.vault_input),
                *old(accounts.vault_output),
                *old(accounts.maker_output),
                decrypted_min_output,
            );
            let unchanged = *final(pool) == *old(pool) && *final(order) == *old(order)
                && *final(accounts.escrow) == *old(accounts.escrow) && *final(accounts.vault_input)
                == *old(accounts.vault_input) && *final(accounts.vault_output) == *old(
                accounts.vault_output,
            ) && *final(accounts.maker_output) == *old(accounts.maker_output);
            if admission is Some {
                r == Err::<u64, DarkFlowError>(admission->Some_0) && unchanged && *final(guard)
                    == *old(guard)
            } else if old(guard).contains(nullifier@) {
                r == Err::<u64, DarkFlowError>(DarkFlowError::NullifierAlreadyUsed) && unchanged
                    && *final(guard) == *old(guard)
            } else {
                &&& final(guard).records@ == old(guard).with_record(nullifier, now)
                &&& match settle {
                    Some(e) => r == Err::<u64, DarkFlowError>(e) && unchanged,
                    None => {
                        let input = old(order).input_amount;
                        let output = constant_product_spec(
                            input,
                            old(accounts.vault_input).amount,
                            old(accounts.vault_output).amount,
                            old(pool).fee_rate_bps,
                        )->Ok_0;
                        &&& r == Ok::<u64, DarkFlowError>(output as u64)
                        &&& *final(accounts.escrow) == old(accounts.escrow).with_amount(
                            (old(accounts.escrow).amount - input) as u64,
                        )
                        &&& *final(accounts.vault_input) == old(accounts.vault_input).with_amount(
                            (old(accounts.vault_input).amount + input) as u64,
                        )
                        &&& *final(accounts.vault_output) == old(
                            accounts.vault_output,
                        ).with_amount((old(accounts.vault_output).amount - output) as u64)
                        &&& *final(accounts.maker_output) == old(
                            accounts.maker_output,
                        ).with_amount((old(accounts.maker_output).amount + output) as u64)
                        &&& final(order).status == OrderStatus::Filled
                        &&& final(order).executed_by == Some(*solver)
                        &&& final(order).executed_at == Some(now)
                        &&& final(order).input_amount == input
                        &&& final(order).maker == old(order).maker
                        &&& final(order).key == old(order).key
                        &&& *final(pool) == (DarkPool {
                            total_volume_a: saturating_add_spec(old(pool).total_volume_a, input),
                            total_volume_b: saturating_add_spec(
                                old(pool).total_volume_b,
                                output as u64,
                            ),
                            ..*old(pool)
                        })
                    },
                }
            }
        }),
{
    let DarkExecution { escrow, vault_input, vault_output, maker_output } = accounts;
    if !order.pool.equals(&pool.key) {
        return Err(DarkFlowError::Unauthorized);
    }
    if !pool.is_active {
        return Err(DarkFlowError::PoolNotActive);
    }
    if !order.can_execute(now) {
        return Err(DarkFlowError::OrderNotPending);
    }
    if !verify_execution_proof(execution_proof, &order.commitment) {
        return Err(DarkFlowError::InvalidZkProof);
    }
    if pool.fee_rate_bps > 10000 {
        return Err(DarkFlowError::InvalidAmount);
    }
    if !escrow.owner.equals(&order.key) || !vault_input.owner.equals(&pool.key)
        || !vault_output.owner.equals(&pool.key) || !maker_output.owner.equals(&order.maker) {
        return Err(DarkFlowError::Unauthorized);
    }
    if !escrow.mint.equals(&order.input_mint) || !vault_input.mint.equals(&order.input_mint)
        || !vault_output.mint.equals(&order.output_mint) || !maker_output.mint.equals(
        &order.output_mint,
    ) {
        return Err(DarkFlowError::InvalidTokenMint);
    }
    match guard.mark_nullifier_used(nullifier, now) {
        Ok(()) => {},
        Err(e) => {
            return Err(e);
        },
    }
    let input_amount = order.input_amount;
    let output_amount = match constant_product_output(
        input_amount,
        vault_input.amount,
        vault_output.amount,
        pool.fee_rate_bps,
    ) {
        Ok(out) => out,
        Err(e) => {
            return Err(e);
        },
    };
    if output_amount < decrypted_min_output {
        return Err(DarkFlowError::SlippageExceeded);
    }
    if !escrow.is_open || escrow.amount < input_amount || !vault_input.is_open
        || !vault_output.is_open || vault_output.amount < output_amount || !maker_output.is_open {
        return Err(DarkFlowError::InsufficientBalance);
    }
    if vault_input.amount > u64::MAX - input_amount || maker_output.amount > u64::MAX
        - output_amount {
        return Err(DarkFlowError::MathOverflow);
    }
    let order_key = order.key;
    let pool_key = pool.key;
    let escrowed = transfer(escrow, vault_input, &order_key, input_amount);
    assert(escrowed is Ok);
    let paid = transfer(vault_output, maker_output, &pool_key, output_amount);
    assert(paid is Ok);
    let encrypted_output = encrypt_for_maker(output_amount, &order.maker);
    order.fill(*solver, encrypted_output, now);
    pool.add_volume(input_amount, output_amount);
    Ok(output_amount)
}

/// Why cancelling a dark order is refused, if it is.
pub open spec fn cancel_dark_error(order: DarkOrder, maker: Pubkey, escrow: TokenAccount, maker_input: TokenAccount) -> Option<DarkFlowError> {
    if order.maker@ != maker@ {
        Some(DarkFlowError::Unauthorized)
    } else if order.status != OrderStatus::Pending {
        Some(DarkFlowError::OrderNotPending)
    } else if escrow.owner@ != order.key@ || maker_input.owner@ != maker@ {
        Some(DarkFlowError::Unauthorized)
    } else if escrow.mint@ != order.input_mint@ || maker_input.mint@ != order.input_mint@ {
        Some(DarkFlowError::InvalidTokenMint)
    } else if !escrow.is_open || !maker_input.is_open {
        Some(DarkFlowError::InsufficientBalance)
    } else if maker_input.amount + escrow.amount > u64::MAX {
        Some(DarkFlowError::MathOverflow)
    } else {
        None
    }
}

/// Cancels a pending dark order for its maker: the whole escrow goes back
/// to the maker and is closed, and the order is Cancelled.
pub fn cancel_dark_order(
    order: &mut DarkOrder,
    maker: &Pubkey,
    escrow: &mut TokenAccount,
    maker_input: &mut TokenAccount,
) -> (r: Result<(), DarkFlowError>)
    ensures
        match cancel_dark_error(*old(order), *maker, *old(escrow), *old(maker_input)) {
            Some(e) => {
                &&& r == Err::<(), DarkFlowError>(e)
                &&& *final(order) == *old(order)
                &&& *final(escrow) == *old(escrow)
                &&& *final(maker_input) == *old(maker_input)
            },
            None => {
                &&& r is Ok
                &&& *final(order) == (DarkOrder { status: OrderStatus::Cancelled, ..*old(order) })
                &&& *final(escrow) == old(escrow).closed()
                &&& *final(maker_input) == old(maker_input).with_amount(
                    (old(maker_input).amount + old(escrow).amount) as u64,
                )
            },
        },
{
    if !order.maker.equals(maker) {
        return Err(DarkFlowError::Unauthorized);
    }
    if order.status != OrderStatus::Pending {
        return Err(DarkFlowError::OrderNotPending);
    }
    if !escrow.owner.equals(&order.key) || !maker_input.owner.equals(maker) {
        return Err(DarkFlowError::Unauthorized);
    }
    if !escrow.mint.equals(&order.input_mint) || !maker_input.mint.equals(&order.input_mint) {
        return Err(DarkFlowError::InvalidTokenMint);
    }
    if !escrow.is_open || !maker_input.is_open {
        return Err(DarkFlowError::InsufficientBalance);
    }
    if maker_input.amount > u64::MAX - escrow.amount {
        return Err(DarkFlowError::MathOverflow);
    }
    let order_key = order.key;
    let returned = release_and_close(escrow, maker_input, &order_key);
    assert(returned is Ok);
    order.cancel();
    Ok(())
}

/// Why a dark swap is refused before its nullifier, if it is.
pub open spec fn dark_swap_error(pool: DarkPool, encrypted_order: Seq<u8>, zk_proof: Seq<u8>) -> Option<DarkFlowError> {
    if !pool.is_active {
        Some(DarkFlowError::PoolNotActive)
    } else if !encrypted_len_ok(encrypted_order.len() as int) {
        Some(DarkFlowError::InvalidEncryptedData)
    } else if !proof_admissible(zk_proof) {
        Some(DarkFlowError::InvalidZkProof)
    } else {
        None
    }
}

/// A swap whose amounts stay hidden: checks the encrypted order and the
/// proof, then consumes the nullifier, which fails if it was used before.
pub fn dark_swap(
    pool: &DarkPool,
    guard: &mut NullifierSet,
    encrypted_order: &[u8],
    zk_proof: &[u8],
    nullifier: [u8; 32],
    now: i64,
) -> (r: Result<(), DarkFlowError>)
    ensures
        match dark_swap_error(*pool, encrypted_order@, zk_proof@) {
            Some(e) => r == Err::<(), DarkFlowError>(e) && *final(guard) == *old(guard),
            None => if old(guard).contains(nullifier@) {
                r == Err::<(), DarkFlowError>(DarkFlowError::NullifierAlreadyUsed) && *final(guard)
                    == *old(guard)
            } else {
                r is Ok && final(guard).records@ == old(guard).with_record(nullifier, now)
            },
        },
{
    if !pool.is_active {
        return Err(DarkFlowError::PoolNotActive);
    }
    if encrypted_order.len() == 0 || encrypted_order.len() > MAX_ENCRYPTED_DATA {
        return Err(DarkFlowError::InvalidEncryptedData);
    }
    if !verify_swap_proof(zk_proof, encrypted_order, &nullifier) {
        return Err(DarkFlowError::InvalidZkProof);
    }
    guard.mark_nullifier_used(nullifier, now)
}

} // verus!
