//! The basic swap router: the same escrowed lifecycle as the tiered engine,
//! with one solver and no tiers or fees at execution.

use vstd::prelude::*;
use crate::errors::SwapError;
use crate::fees::MAX_FEE_BPS;
use crate::keys::Pubkey;
use crate::ledger::{release_and_close, transfer, TokenAccount};
use crate::orders::{can_fund, funded_vault, OrderStatus, SubmitAccounts, MAX_PAYLOAD_SIZE, MIN_PAYLOAD_SIZE};

verus! {

/// Configuration of the router's single solver and its aggregates.
#[derive(Debug, Clone, Copy)]
pub struct SolverConfig {
    pub authority: Pubkey,
    pub solver_pubkey: Pubkey,
    pub fee_bps: u16,
    pub total_orders: u64,
    pub total_volume: u64,
    pub is_active: bool,
}

/// An escrowed order whose terms are encrypted for the solver.
#[derive(Debug, Clone)]
pub struct EncryptedOrder {
    pub owner: Pubkey,
    pub order_id: u64,
    /// The order's own key: the authority over its vaults.
    pub key: Pubkey,
    pub input_mint: Pubkey,
    pub output_mint: Pubkey,
    pub input_amount: u64,
    pub min_output_amount: u64,
    pub output_amount: u64,
    pub encrypted_payload: Vec<u8>,
    pub status: OrderStatus,
    pub created_at: i64,
    pub executed_at: i64,
    pub executed_by: Option<Pubkey>,
    pub execution_signature: Vec<u8>,
}

impl EncryptedOrder {
    pub fn is_cancellable(&self) -> (r: bool)
        ensures
            r == (self.status == OrderStatus::Pending),
    {
        self.status == OrderStatus::Pending
    }

    pub fn is_executable(&self) -> (r: bool)
        ensures
            r == (self.status == OrderStatus::Pending),
    {
        self.status == OrderStatus::Pending
    }

    pub fn is_claimable(&self) -> (r: bool)
        ensures
            r == (self.status == OrderStatus::Completed),
    {
        self.status == OrderStatus::Completed
    }
}

/// A new, active solver configuration with zero aggregates; a fee above
/// the maximum is refused.
pub fn initialize_solver(authority: Pubkey, solver_pubkey: Pubkey, fee_bps: u16) -> (r: Result<SolverConfig, SwapError>)
    ensures
        fee_bps > MAX_FEE_BPS ==> r == Err::<SolverConfig, SwapError>(SwapError::InvalidInputAmount),
        fee_bps <= MAX_FEE_BPS ==> r == Ok::<SolverConfig, SwapError>(
            SolverConfig {
                authority,
                solver_pubkey,
                fee_bps,
                total_orders: 0,
                total_volume: 0,
                is_active: true,
            },
        ),
{
    if fee_bps > MAX_FEE_BPS {
        return Err(SwapError::InvalidInputAmount);
    }
    Ok(
        SolverConfig {
            authority,
            solver_pubkey,
            fee_bps,
            total_orders: 0,
            total_volume: 0,
            is_active: true,
        },
    )
}

/// Why a submission is refused, if it is.
pub open spec fn router_submit_error(
    config: SolverConfig,
    accounts: SubmitAccounts,
    user_input: TokenAccount,
    input_amount: u64,
    payload_len: int,
) -> Option<SwapError> {
    if !config.is_active {
        Some(SwapError::SolverNotActive)
    } else if user_input.mint@ != accounts.input_mint@ {
        Some(SwapError::InvalidTokenMint)
    } else if user_input.owner@ != accounts.owner@ {
        Some(SwapError::UnauthorizedOwner)
    } else if payload_len < MIN_PAYLOAD_SIZE || payload_len > MAX_PAYLOAD_SIZE {
        Some(SwapError::InvalidPayloadLength)
    } else if input_amount == 0 {
        Some(SwapError::InvalidInputAmount)
    } else if !can_fund(user_input, input_amount) {
        Some(SwapError::InsufficientBalance)
    } else {
        None
    }
}

/// Submits an order, escrowing `input_amount` into a new vault owned by
/// the order.
pub fn submit_order(
    config: &SolverConfig,
    accounts: &SubmitAccounts,
    user_input: &mut TokenAccount,
    order_id: u64,
    input_amount: u64,
    encrypted_payload: Vec<u8>,
    now: i64,
) -> (r: Result<(EncryptedOrder, TokenAccount), SwapError>)
    ensures
        match r {
            Ok((order, vault)) => {
                &&& router_submit_error(
                    *config,
                    *accounts,
                    *old(user_input),
                    input_amount,
                    encrypted_payload@.len() as int,
                ) is None
                &&& order.owner == accounts.owner
                &&& order.key == accounts.order_key
                &&& order.order_id == order_id
                &&& order.input_mint == accounts.input_mint
                &&& order.output_mint == accounts.output_mint
                &&& order.input_amount == input_amount
                &&& order.min_output_amount == 0
                &&& order.output_amount == 0
                &&& order.encrypted_payload@ == encrypted_payload@
                &&& order.status == OrderStatus::Pending
                &&& order.created_at == now
                &&& order.executed_at == 0
                &&& order.executed_by is None
                &&& order.execution_signature@.len() == 0
                &&& vault == funded_vault(*accounts, input_amount)
                &&& *final(user_input) == old(user_input).with_amount(
                    (old(user_input).amount - input_amount) as u64,
                )
            },
            Err(e) => router_submit_error(
                *config,
                *accounts,
                *old(user_input),
                input_amount,
                encrypted_payload@.len() as int,
            ) == Some(e) && *final(user_input) == *old(user_input),
        },
{
    if !config.is_active {
        return Err(SwapError::SolverNotActive);
    }
    if !user_input.mint.equals(&accounts.input_mint) {
        return Err(SwapError::InvalidTokenMint);
    }
    if !user_input.owner.equals(&accounts.owner) {
        return Err(SwapError::UnauthorizedOwner);
    }
    if encrypted_payload.len() < MIN_PAYLOAD_SIZE || encrypted_payload.len() > MAX_PAYLOAD_SIZE {
        return Err(SwapError::InvalidPayloadLength);
    }
    if input_amount == 0 {
        return Err(SwapError::InvalidInputAmount);
    }
    if !user_input.is_open || user_input.amount < input_amount {
        return Err(SwapError::InsufficientBalance);
    }
    let mut vault = TokenAccount::open_vault(
        accounts.order_vault_key,
        accounts.input_mint,
        accounts.order_key,
    );
    let moved = transfer(user_input, &mut vault, &accounts.owner, input_amount);
    assert(moved is Ok);
    let order = EncryptedOrder {
        owner: accounts.owner,
        order_id,
        key: accounts.order_key,
        input_mint: accounts.input_mint,
        output_mint: accounts.output_mint,
        input_amount,
        min_output_amount: 0,
        output_amount: 0,
        encrypted_payload,
        status: OrderStatus::Pending,
        created_at: now,
        executed_at: 0,
        executed_by: None,
        execution_signature: Vec::new(),
    };
    Ok((order, vault))
}

/// Why an execution is refused, if it is.
pub open spec fn router_execute_error(
    config: SolverConfig,
    order: EncryptedOrder,
    solver: Pubkey,
    order_vault: TokenAccount,
    solver_input: TokenAccount,
    solver_output: TokenAccount,
    decrypted_min_output: u64,
    actual_output_amount: u64,
) -> Option<SwapError> {
    if !config.is_active {
        Some(SwapError::SolverNotActive)
    } else if config.solver_pubkey@ != solver@ {
        Some(SwapError::UnauthorizedSolver)
    } else if order.status != OrderStatus::Pending {
        Some(SwapError::OrderNotExecutable)
    } else if order_vault.owner@ != order.key@ {
        Some(SwapError::UnauthorizedOwner)
    } else if order_vault.mint@ != order.input_mint@ || solver_input.mint@ != order.input_mint@ {
        Some(SwapError::InvalidTokenMint)
    } else if solver_input.owner@ != solver@ {
        Some(SwapError::UnauthorizedSolver)
    } else if solver_output.mint@ != order.output_mint@ {
        Some(SwapError::InvalidTokenMint)
    } else if solver_output.owner@ != solver@ {
        Some(SwapError::UnauthorizedSolver)
    } else if actual_output_amount < decrypted_min_output {
        Some(SwapError::SlippageExceeded)
    } else if !can_fund(order_vault, order.input_amount) || !can_fund(
        solver_output,
        actual_output_amount,
    ) || !solver_input.is_open {
        Some(SwapError::InsufficientBalance)
    } else if solver_input.amount + order.input_amount > u64::MAX || config.total_orders + 1
        > u64::MAX || config.total_volume + order.input_amount > u64::MAX {
        Some(SwapError::ArithmeticOverflow)
    } else {
        None
    }
}

/// Executes a pending order as the solver: the escrow goes to the solver,
/// the whole `actual_output_amount` goes from the solver into a new output
/// vault owned by the order, the order records the result, and the
/// aggregates grow by one order and its input. On failure nothing changes.
pub fn execute_order(
    config: &mut SolverConfig,
    order: &mut EncryptedOrder,
    solver: &Pubkey,
    order_vault: &mut TokenAccount,
    output_vault_key: Pubkey,
    solver_input: &mut TokenAccount,
    solver_output: &mut TokenAccount,
    decrypted_min_output: u64,
    actual_output_amount: u64,
    now: i64,
) -> (r: Result<TokenAccount, SwapError>)
    ensures
        match r {
            Ok(output_vault) => {
                let input = old(order).input_amount;
                &&& router_execute_error(
                    *old(config),
                    *old(order),
                    *solver,
                    *old(order_vault),
                    *old(solver_input),
                    *old(solver_output),
                    decrypted_min_output,
                    actual_output_amount,
                ) is None
                &&& output_vault == (TokenAccount {
                    key: output_vault_key,
                    mint: old(order).output_mint,
                    owner: old(order).key,
                    amount: actual_output_amount,
                    is_open: true,
                })
                &&& *final(order) == (EncryptedOrder {
                    status: OrderStatus::Completed,
                    min_output_amount: decrypted_min_output,
                    output_amount: actual_output_amount,
                    executed_at: now,
                    executed_by: Some(*solver),
                    ..*old(order)
                })
                &&& *final(order_vault) == old(order_vault).with_amount(
                    (old(order_vault).amount - input) as u64,
                )
                &&& *final(solver_input) == old(solver_input).with_amount(
                    (old(solver_input).amount + input) as u64,
                )
                &&& *final(solver_output) == old(solver_output).with_amount(
                    (old(solver_output).amount - actual_output_amount) as u64,
                )
                &&& *final(config) == (SolverConfig {
                    total_orders: (old(config).total_orders + 1) as u64,
                    total_volume: (old(config).total_volume + input) as u64,
                    ..*old(config)
                })
            },
            Err(e) => {
                &&& router_execute_error(
                    *old(config),
                    *old(order),
                    *solver,
                    *old(order_vault),
                    *old(solver_input),
                    *old(solver_output),
                    decrypted_min_output,
                    actual_output_amount,
                ) == Some(e)
                &&& *final(config) == *old(config)
                &&& *final(order) == *old(order)
                &&& *final(order_vault) == *old(order_vault)
                &&& *final(solver_input) == *old(solver_input)
                &&& *final(solver_output) == *old(solver_output)
            },
        },
{
    if !config.is_active {
        return Err(SwapError::SolverNotActive);
    }
    if !config.solver_pubkey.equals(solver) {
        return Err(SwapError::UnauthorizedSolver);
    }
    if !order.is_executable() {
        return Err(SwapError::OrderNotExecutable);
    }
    if !order_vault.owner.equals(&order.key) {
        return Err(SwapError::UnauthorizedOwner);
    }
    if !order_vault.mint.equals(&order.input_mint) || !solver_input.mint.equals(&order.input_mint) {
        return Err(SwapError::InvalidTokenMint);
    }
    if !solver_input.owner.equals(solver) {
        return Err(SwapError::UnauthorizedSolver);
    }
    if !solver_output.mint.equals(&order.output_mint) {
        return Err(SwapError::InvalidTokenMint);
    }
    if !solver_output.owner.equals(solver) {
        return Err(SwapError::UnauthorizedSolver);
    }
    if actual_output_amount < decrypted_min_output {
        return Err(SwapError::SlippageExceeded);
    }
    let input_amount = order.input_amount;
    if !order_vault.is_open || order_vault.amount < input_amount || !solver_output.is_open
        || solver_output.amount < actual_output_amount || !solver_input.is_open {
        return Err(SwapError::InsufficientBalance);
    }
    if solver_input.amount > u64::MAX - input_amount || config.total_orders == u64::MAX
        || config.total_volume > u64::MAX - input_amount {
        return Err(SwapError::ArithmeticOverflow);
    }
    let order_key = order.key;
    let released = transfer(order_vault, solver_input, &order_key, input_amount);
    assert(released is Ok);
    let mut output_vault = TokenAccount::open_vault(output_vault_key, order.output_mint, order.key);
    let paid = transfer(solver_output, &mut output_vault, solver, actual_output_amount);
    assert(paid is Ok);
    order.status = OrderStatus::Completed;
    order.min_output_amount = decrypted_min_output;
    order.output_amount = actual_output_amount;
    order.executed_at = now;
    order.executed_by = Some(*solver);
    config.total_orders = config.total_orders + 1;
    config.total_volume = config.total_volume + input_amount;
    Ok(output_vault)
}

/// Why a cancellation is refused, if it is.
pub open spec fn router_cancel_error(order: EncryptedOrder, owner: Pubkey, order_vault: TokenAccount, user_input: TokenAccount) -> Option<SwapError> {
    if order.owner@ != owner@ {
        Some(SwapError::UnauthorizedOwner)
    } else if order.status != OrderStatus::Pending {
        Some(SwapError::OrderNotCancellable)
    } else if order_vault.owner@ != order.key@ {
        Some(SwapError::UnauthorizedOwner)
    } else if order_vault.mint@ != order.input_mint@ || user_input.mint@ != order.input_mint@ {
        Some(SwapError::InvalidTokenMint)
    } else if user_input.owner@ != owner@ {
        Some(SwapError::UnauthorizedOwner)
    } else if !order_vault.is_open || !user_input.is_open {
        Some(SwapError::InsufficientBalance)
    } else if user_input.amount + order_vault.amount > u64::MAX {
        Some(SwapError::ArithmeticOverflow)
    } else {
        None
    }
}

/// Cancels a pending order for its owner: the whole input vault goes back
/// to the owner and is closed, and the order is Cancelled.
pub fn cancel_order(
    order: &mut EncryptedOrder,
    owner: &Pubkey,
    order_vault: &mut TokenAccount,
    user_input: &mut TokenAccount,
) -> (r: Result<(), SwapError>)
    ensures
        match router_cancel_error(*old(order), *owner, *old(order_vault), *old(user_input)) {
            Some(e) => {
                &&& r == Err::<(), SwapError>(e)
                &&& *final(order) == *old(order)
                &&& *final(order_vault) == *old(order_vault)
                &&& *final(user_input) == *old(user_input)
            },
            None => {
                &&& r is Ok
                &&& *final(order) == (EncryptedOrder {
                    status: OrderStatus::Cancelled,
                    ..*old(order)
                })
                &&& *final(order_vault) == old(order_vault).closed()
                &&& *final(user_input) == old(user_input).with_amount(
                    (old(user_input).amount + old(order_vault).amount) as u64,
                )
            },
        },
{
    if !order.owner.equals(owner) {
        return Err(SwapError::UnauthorizedOwner);
    }
    if !order.is_cancellable() {
        return Err(SwapError::OrderNotCancellable);
    }
    if !order_vault.owner.equals(&order.key) {
        return Err(SwapError::UnauthorizedOwner);
    }
    if !order_vault.mint.equals(&order.input_mint) || !user_input.mint.equals(&order.input_mint) {
        return Err(SwapError::InvalidTokenMint);
    }
    if !user_input.owner.equals(owner) {
        return Err(SwapError::UnauthorizedOwner);
    }
    if !order_vault.is_open || !user_input.is_open {
        return Err(SwapError::InsufficientBalance);
    }
    if user_input.amount > u64::MAX - order_vault.amount {
        return Err(SwapError::ArithmeticOverflow);
    }
    let order_key = order.key;
    let returned = release_and_close(order_vault, user_input, &order_key);
    assert(returned is Ok);
    order.status = OrderStatus::Cancelled;
    Ok(())
}

/// Why a claim is refused, if it is; an empty or closed output vault means
/// the output was already claimed.
pub open spec fn router_claim_error(order: EncryptedOrder, owner: Pubkey, output_vault: TokenAccount, user_output: TokenAccount) -> Option<SwapError> {
    if order.owner@ != owner@ {
        Some(SwapError::UnauthorizedOwner)
    } else if order.status != OrderStatus::Completed {
        Some(SwapError::OrderNotClaimable)
    } else if output_vault.owner@ != order.key@ {
        Some(SwapError::UnauthorizedOwner)
    } else if output_vault.mint@ != order.output_mint@ || user_output.mint@ != order.output_mint@ {
        Some(SwapError::InvalidTokenMint)
    } else if user_output.owner@ != owner@ {
        Some(SwapError::UnauthorizedOwner)
    } else if !output_vault.is_open || output_vault.amount == 0 {
        Some(SwapError::AlreadyClaimed)
    } else if !user_output.is_open {
        Some(SwapError::InsufficientBalance)
    } else if user_output.amount + output_vault.amount > u64::MAX {
        Some(SwapError::ArithmeticOverflow)
    } else {
        None
    }
}

/// Pays an executed order's whole output vault to its owner and closes
/// the vault; returns the amount paid.
pub fn claim_output(
    order: &EncryptedOrder,
    owner: &Pubkey,
    output_vault: &mut TokenAccount,
    user_output: &mut TokenAccount,
) -> (r: Result<u64, SwapError>)
    ensures
        match router_claim_error(*order, *owner, *old(output_vault), *old(user_output)) {
            Some(e) => {
                &&& r == Err::<u64, SwapError>(e)
                &&& *final(output_vault) == *old(output_vault)
                &&& *final(user_output) == *old(user_output)
            },
            None => {
                &&& r == Ok::<u64, SwapError>(old(output_vault).amount)
                &&& *final(output_vault) == old(output_vault).closed()
                &&& *final(user_output) == old(user_output).with_amount(
                    (old(user_output).amount + old(output_vault).amount) as u64,
                )
            },
        },
{
    if !order.owner.equals(owner) {
        return Err(SwapError::UnauthorizedOwner);
    }
    if !order.is_claimable() {
        return Err(SwapError::OrderNotClaimable);
    }
    if !output_vault.owner.equals(&order.key) {
        return Err(SwapError::UnauthorizedOwner);
    }
    if !output_vault.mint.equals(&order.output_mint) || !user_output.mint.equals(
        &order.output_mint,
    ) {
        return Err(SwapError::InvalidTokenMint);
    }
    if !user_output.owner.equals(owner) {
        return Err(SwapError::UnauthorizedOwner);
    }
    if !output_vault.is_open || output_vault.amount == 0 {
        return Err(SwapError::AlreadyClaimed);
    }
    if !user_output.is_open {
        return Err(SwapError::InsufficientBalance);
    }
    if user_output.amount > u64::MAX - output_vault.amount {
        return Err(SwapError::ArithmeticOverflow);
    }
    match release_and_close(output_vault, user_output, &order.key) {
        Ok(amount) => Ok(amount),
        Err(_) => Err(SwapError::InsufficientBalance),
    }
}

} // verus!
