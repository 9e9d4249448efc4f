//! The tiered settlement engine: orders escrowed at submission, executed
//! by the configured solver for a tier-dependent fee, then cancelled or
//! claimed by their owner.

use vstd::prelude::*;
use crate::errors::UmbraError;
use crate::fees::{apply_fee, apply_fee_spec, fee_of, MAX_FEE_BPS};
use crate::keys::Pubkey;
use crate::ledger::{release_and_close, transfer, TokenAccount};
use crate::sovereign::{
    benefits_of,
    discounted_fee,
    fairscore_of_level,
    get_privacy_benefits,
    read_sovereign_tier,
    sovereign_tier_to_fairscore,
    sovereign_tier_to_umbra_index,
    tier_in_record,
    umbra_index_of,
};
use crate::tiers::{
    mev_level_from_code,
    mev_level_of,
    has_default_tiers,
    tier_index_of,
    MevProtectionLevel,
    TierConfig,
    TierDefinition,
    MAX_FAIRSCORE,
    NUM_TIERS,
    ORDER_TYPE_DARK,
};

verus! {

/// Fewest bytes an encrypted payload may hold (a nonce and minimal data).
pub const MIN_PAYLOAD_SIZE: usize = 24;

/// Most bytes an encrypted payload may hold.
pub const MAX_PAYLOAD_SIZE: usize = 128;

/// Oldest a reputation attestation may be, in seconds.
pub const MAX_PROOF_AGE_SECONDS: i64 = 600;

#[derive(Debug, Clone, Copy, PartialEq, Eq, Structural)]
pub enum OrderStatus {
    Pending,
    Executing,
    Completed,
    Cancelled,
    Failed,
}

#[derive(Debug, Clone, Copy, PartialEq, Eq, Structural)]
pub enum OrderType {
    Market,
    Limit,
    Twap,
    Iceberg,
    Dark,
}

impl OrderType {
    pub open spec fn bitmask(self) -> u8 {
        match self {
            OrderType::Market => 1,
            OrderType::Limit => 2,
            OrderType::Twap => 4,
            OrderType::Iceberg => 8,
            OrderType::Dark => 16,
        }
    }

    /// The single bit that stands for this order type.
    pub fn to_bitmask(&self) -> (r: u8)
        ensures
            r == self.bitmask(),
    {
        match self {
            OrderType::Market => 1,
            OrderType::Limit => 2,
            OrderType::Twap => 4,
            OrderType::Iceberg => 8,
            OrderType::Dark => 16,
        }
    }
}

/// The order type whose bit is `code`, if `code` is exactly one such bit.
pub open spec fn order_type_of(code: u8) -> Option<OrderType> {
    if code == 1 {
        Some(OrderType::Market)
    } else if code == 2 {
        Some(OrderType::Limit)
    } else if code == 4 {
        Some(OrderType::Twap)
    } else if code == 8 {
        Some(OrderType::Iceberg)
    } else if code == 16 {
        Some(OrderType::Dark)
    } else {
        None
    }
}

pub fn order_type_from_code(code: u8) -> (r: Option<OrderType>)
    ensures
        r == order_type_of(code),
{
    match code {
        1 => Some(OrderType::Market),
        2 => Some(OrderType::Limit),
        4 => Some(OrderType::Twap),
        8 => Some(OrderType::Iceberg),
        16 => Some(OrderType::Dark),
        _ => None,
    }
}

/// Display name of tier index `tier`.
pub open spec fn tier_name_of(tier: u8) -> Seq<char> {
    if tier == 0 {
        "None"@
    } else if tier == 1 {
        "Bronze"@
    } else if tier == 2 {
        "Silver"@
    } else if tier == 3 {
        "Gold"@
    } else if tier == 4 {
        "Diamond"@
    } else {
        "Unknown"@
    }
}

/// An escrowed swap order with the tier terms frozen at submission.
#[derive(Debug, Clone)]
pub struct TieredOrder {
    pub owner: Pubkey,
    /// Caller-chosen, unique among the owner's open orders.
    pub order_id: u64,
    /// The order's own key: the authority over its vaults.
    pub key: Pubkey,
    pub input_mint: Pubkey,
    pub output_mint: Pubkey,
    /// Escrowed at submission; never changes.
    pub input_amount: u64,
    /// Attested minimum, recorded at execution.
    pub min_output_amount: u64,
    /// Output net of fee, recorded at execution.
    pub output_amount: u64,
    /// Opaque; only its length is checked.
    pub encrypted_payload: Vec<u8>,
    pub status: OrderStatus,
    pub order_type: OrderType,
    pub created_at: i64,
    pub executed_at: i64,
    pub executed_by: Option<Pubkey>,
    /// Tier index 0..=4 at submission.
    pub user_tier: u8,
    pub fee_bps_applied: u16,
    pub fee_amount: u64,
    pub mev_protection_level: MevProtectionLevel,
    pub fairscore_at_creation: u8,
    pub user_encryption_pubkey: Vec<u8>,
}

impl TieredOrder {
    pub fn is_cancellable(&self) -> (r: bool)
        ensures
            r == (self.status == OrderStatus::Pending),
    {
        self.status == OrderStatus::Pending
    }

    pub fn is_executable(&self) -> (r: bool)
        ensures
            r == (self.status == OrderStatus::Pending),
    {
        self.status == OrderStatus::Pending
    }

    pub fn is_claimable(&self) -> (r: bool)
        ensures
            r == (self.status == OrderStatus::Completed),
    {
        self.status == OrderStatus::Completed
    }

    /// The fee charged on `output_amount` at this order's frozen rate.
    pub fn calculate_fee(&self, output_amount: u64) -> (r: u64)
        requires
            self.fee_bps_applied <= 10000,
        ensures
            r == fee_of(output_amount as int, self.fee_bps_applied as int),
    {
        match apply_fee(output_amount, self.fee_bps_applied) {
            Ok((_, fee)) => fee,
            Err(_) => {
                proof {
                    crate::fees::lemma_fee_at_most_amount(
                        output_amount as int,
                        self.fee_bps_applied as int,
                    );
                }
                0
            },
        }
    }

    /// Display name of the order's tier.
    pub fn get_tier_name(&self) -> (r: &'static str)
        ensures
            r@ == tier_name_of(self.user_tier),
    {
        match self.user_tier {
            0 => "None",
            1 => "Bronze",
            2 => "Silver",
            3 => "Gold",
            4 => "Diamond",
            _ => "Unknown",
        }
    }

    /// The order with the results of execution written in.
    pub open spec fn executed(self, min_output: u64, output: u64, fee: u64, now: i64, solver: Pubkey) -> TieredOrder {
        TieredOrder {
            status: OrderStatus::Completed,
            min_output_amount: min_output,
            output_amount: output,
            fee_amount: fee,
            executed_at: now,
            executed_by: Some(solver),
            ..self
        }
    }

    pub open spec fn with_status(self, status: OrderStatus) -> TieredOrder {
        TieredOrder { status, ..self }
    }
}

/// The keys that a submission binds together.
#[derive(Debug, Clone, Copy)]
pub struct SubmitAccounts {
    /// The submitter, who must own the funding account.
    pub owner: Pubkey,
    /// Key of the new order.
    pub order_key: Pubkey,
    /// Key of the new input vault.
    pub order_vault_key: Pubkey,
    pub input_mint: Pubkey,
    pub output_mint: Pubkey,
}

/// The checks that every submission makes before its tier terms, in order.
pub open spec fn submit_common_error(
    config: TierConfig,
    accounts: SubmitAccounts,
    user_input: TokenAccount,
    input_amount: u64,
    payload_len: int,
) -> Option<UmbraError> {
    if !config.is_active {
        Some(UmbraError::ProtocolPaused)
    } else if user_input.mint@ != accounts.input_mint@ {
        Some(UmbraError::InvalidTokenMint)
    } else if user_input.owner@ != accounts.owner@ {
        Some(UmbraError::UnauthorizedOwner)
    } else if payload_len < MIN_PAYLOAD_SIZE || payload_len > MAX_PAYLOAD_SIZE {
        Some(UmbraError::InvalidPayloadLength)
    } else if input_amount == 0 {
        Some(UmbraError::InvalidInputAmount)
    } else {
        None
    }
}

/// Whether the funding account can pay `input_amount` into escrow; a
/// closed account holds nothing.
pub open spec fn can_fund(user_input: TokenAccount, input_amount: u64) -> bool {
    user_input.is_open && user_input.amount >= input_amount
}

/// Why a score-based submission is refused, if it is.
pub open spec fn submit_error(
    config: TierConfig,
    accounts: SubmitAccounts,
    user_input: TokenAccount,
    input_amount: u64,
    order_type: u8,
    payload_len: int,
    fairscore: u8,
    fairscore_timestamp: i64,
    now: i64,
) -> Option<UmbraError> {
    let tier = config.tiers@[tier_index_of(config.tiers@, fairscore)];
    if submit_common_error(config, accounts, user_input, input_amount, payload_len) is Some {
        submit_common_error(config, accounts, user_input, input_amount, payload_len)
    } else if fairscore > MAX_FAIRSCORE {
        Some(UmbraError::InvalidFairScore)
    } else if now - fairscore_timestamp > MAX_PROOF_AGE_SECONDS {
        Some(UmbraError::FairScoreProofExpired)
    } else if order_type_of(order_type) is None || tier.allowed_order_types & order_type == 0 {
        Some(UmbraError::OrderTypeNotAllowed)
    } else if !can_fund(user_input, input_amount) {
        Some(UmbraError::InsufficientBalance)
    } else {
        None
    }
}

/// The fields that every new order starts with.
pub open spec fn is_new_order(
    order: TieredOrder,
    accounts: SubmitAccounts,
    order_id: u64,
    input_amount: u64,
    order_type: u8,
    encrypted_payload: Seq<u8>,
    user_encryption_pubkey: Seq<u8>,
    now: i64,
) -> bool {
    &&& order.owner == accounts.owner
    &&& order.key == accounts.order_key
    &&& order.order_id == order_id
    &&& order.input_mint == accounts.input_mint
    &&& order.output_mint == accounts.output_mint
    &&& order.input_amount == input_amount
    &&& order.min_output_amount == 0
    &&& order.output_amount == 0
    &&& order.encrypted_payload@ == encrypted_payload
    &&& order.status == OrderStatus::Pending
    &&& order_type_of(order_type) == Some(order.order_type)
    &&& order.created_at == now
    &&& order.executed_at == 0
    &&& order.executed_by is None
    &&& order.fee_amount == 0
    &&& order.user_encryption_pubkey@ == user_encryption_pubkey
}

/// The input vault of a new order: it holds the whole input amount.
pub open spec fn funded_vault(accounts: SubmitAccounts, input_amount: u64) -> TokenAccount {
    TokenAccount {
        key: accounts.order_vault_key,
        mint: accounts.input_mint,
        owner: accounts.order_key,
        amount: input_amount,
        is_open: true,
    }
}

fn check_submit_common(
    config: &TierConfig,
    accounts: &SubmitAccounts,
    user_input: &TokenAccount,
    input_amount: u64,
    payload_len: usize,
) -> (r: Result<(), UmbraError>)
    ensures
        match submit_common_error(*config, *accounts, *user_input, input_amount, payload_len as int) {
            Some(e) => r == Err::<(), UmbraError>(e),
            None => r is Ok,
        },
{
    if !config.is_active {
        return Err(UmbraError::ProtocolPaused);
    }
    if !user_input.mint.equals(&accounts.input_mint) {
        return Err(UmbraError::InvalidTokenMint);
    }
    if !user_input.owner.equals(&accounts.owner) {
        return Err(UmbraError::UnauthorizedOwner);
    }
    if payload_len < MIN_PAYLOAD_SIZE || payload_len > MAX_PAYLOAD_SIZE {
        return Err(UmbraError::InvalidPayloadLength);
    }
    if input_amount == 0 {
        return Err(UmbraError::InvalidInputAmount);
    }
    Ok(())
}

/// Escrows the input and writes the new order; every check has passed.
fn open_order(
    accounts: &SubmitAccounts,
    user_input: &mut TokenAccount,
    order_id: u64,
    input_amount: u64,
    order_type: OrderType,
    encrypted_payload: Vec<u8>,
    user_encryption_pubkey: Vec<u8>,
    tier_index: usize,
    fee_bps_applied: u16,
    mev_protection_level: MevProtectionLevel,
    fairscore_at_creation: u8,
    now: i64,
) -> (r: (TieredOrder, TokenAccount))
    requires
        old(user_input).mint@ == accounts.input_mint@,
        old(user_input).owner@ == accounts.owner@,
        can_fund(*old(user_input), input_amount),
        tier_index < NUM_TIERS,
    ensures
        r.0.owner == accounts.owner,
        r.0.key == accounts.order_key,
        r.0.order_id == order_id,
        r.0.input_mint == accounts.input_mint,
        r.0.output_mint == accounts.output_mint,
        r.0.input_amount == input_amount,
        r.0.min_output_amount == 0,
        r.0.output_amount == 0,
        r.0.encrypted_payload@ == encrypted_payload@,
        r.0.status == OrderStatus::Pending,
        r.0.order_type == order_type,
        r.0.created_at == now,
        r.0.executed_at == 0,
        r.0.executed_by is None,
        r.0.fee_amount == 0,
        r.0.user_encryption_pubkey@ == user_encryption_pubkey@,
        r.0.user_tier == tier_index,
        r.0.fee_bps_applied == fee_bps_applied,
        r.0.mev_protection_level == mev_protection_level,
        r.0.fairscore_at_creation == fairscore_at_creation,
        r.1 == funded_vault(*accounts, input_amount),
        *final(user_input) == old(user_input).with_amount(
            (old(user_input).amount - input_amount) as u64,
        ),
{
    let mut vault = TokenAccount::open_vault(
        accounts.order_vault_key,
        accounts.input_mint,
        accounts.order_key,
    );
    let moved = transfer(user_input, &mut vault, &accounts.owner, input_amount);
    assert(moved is Ok);
    let order = TieredOrder {
        owner: accounts.owner,
        order_id,
        key: accounts.order_key,
        input_mint: accounts.input_mint,
        output_mint: accounts.output_mint,
        input_amount,
        min_output_amount: 0,
        output_amount: 0,
        encrypted_payload,
        status: OrderStatus::Pending,
        order_type,
        created_at: now,
        executed_at: 0,
        executed_by: None,
        user_tier: tier_index as u8,
        fee_bps_applied,
        fee_amount: 0,
        mev_protection_level,
        fairscore_at_creation,
        user_encryption_pubkey,
    };
    (order, vault)
}

/// Submits an order whose tier comes from a reputation score attested at
/// `fairscore_timestamp`, escrowing `input_amount` from `user_input` into a
/// new vault owned by the order. The tier's fee rate and protection level
/// are frozen into the order.
pub fn submit_order(
    config: &TierConfig,
    accounts: &SubmitAccounts,
    user_input: &mut TokenAccount,
    order_id: u64,
    input_amount: u64,
    order_type: u8,
    encrypted_payload: Vec<u8>,
    user_encryption_pubkey: Vec<u8>,
    fairscore: u8,
    fairscore_timestamp: i64,
    now: i64,
) -> (r: Result<(TieredOrder, TokenAccount), UmbraError>)
    ensures
        match r {
            Ok((order, vault)) => {
                let index = tier_index_of(config.tiers@, fairscore);
                &&& submit_error(
                    *config,
                    *accounts,
                    *old(user_input),
                    input_amount,
                    order_type,
                    encrypted_payload@.len() as int,
                    fairscore,
                    fairscore_timestamp,
                    now,
                ) is None
                &&& is_new_order(
                    order,
                    *accounts,
                    order_id,
                    input_amount,
                    order_type,
                    encrypted_payload@,
                    user_encryption_pubkey@,
                    now,
                )
                &&& order.user_tier == index
                &&& order.fee_bps_applied == config.tiers@[index].fee_bps
                &&& order.mev_protection_level == config.tiers@[index].mev_protection_level
                &&& order.fairscore_at_creation == fairscore
                &&& vault == funded_vault(*accounts, input_amount)
                &&& *final(user_input) == old(user_input).with_amount(
                    (old(user_input).amount - input_amount) as u64,
                )
            },
            Err(e) => submit_error(
                *config,
                *accounts,
                *old(user_input),
                input_amount,
                order_type,
                encrypted_payload@.len() as int,
                fairscore,
                fairscore_timestamp,
                now,
            ) == Some(e) && *final(user_input) == *old(user_input),
        },
{
    match check_submit_common(config, accounts, user_input, input_amount, encrypted_payload.len()) {
        Ok(()) => {},
        Err(e) => {
            return Err(e);
        },
    }
    if fairscore > MAX_FAIRSCORE {
        return Err(UmbraError::InvalidFairScore);
    }
    let proof_age: i128 = now as i128 - fairscore_timestamp as i128;
    if proof_age > MAX_PROOF_AGE_SECONDS as i128 {
        return Err(UmbraError::FairScoreProofExpired);
    }
    let tier_index = config.get_tier_index(fairscore);
    let tier: TierDefinition = config.tiers[tier_index];
    let order_type_enum = match order_type_from_code(order_type) {
        Some(t) => t,
        None => {
            return Err(UmbraError::OrderTypeNotAllowed);
        },
    };
    if tier.allowed_order_types & order_type == 0 {
        return Err(UmbraError::OrderTypeNotAllowed);
    }
    if !user_input.is_open || user_input.amount < input_amount {
        return Err(UmbraError::InsufficientBalance);
    }
    let (order, vault) = open_order(
        accounts,
        user_input,
        order_id,
        input_amount,
        order_type_enum,
        encrypted_payload,
        user_encryption_pubkey,
        tier_index,
        tier.fee_bps,
        tier.mev_protection_level,
        fairscore,
        now,
    );
    Ok((order, vault))
}

/// Why a submission under an external reputation level is refused, if it
/// is. `identity_owner` is the key that the identity record is bound to,
/// and `identity_data` the record itself.
pub open spec fn sovereign_submit_error(
    config: TierConfig,
    accounts: SubmitAccounts,
    user_input: TokenAccount,
    identity_owner: Pubkey,
    identity_data: Seq<u8>,
    input_amount: u64,
    order_type: u8,
    payload_len: int,
) -> Option<UmbraError> {
    let level = tier_in_record(identity_data);
    let benefits = benefits_of(level);
    let tier = config.tiers@[umbra_index_of(level)];
    if submit_common_error(config, accounts, user_input, input_amount, payload_len) is Some {
        submit_common_error(config, accounts, user_input, input_amount, payload_len)
    } else if identity_owner@ != accounts.owner@ {
        Some(UmbraError::InvalidSovereignIdentity)
    } else if input_amount > benefits.max_order_size {
        Some(UmbraError::OrderExceedsTierLimit)
    } else if order_type_of(order_type) is None {
        Some(UmbraError::OrderTypeNotAllowed)
    } else if order_type == ORDER_TYPE_DARK && !benefits.dark_pool_access {
        Some(UmbraError::OrderTypeNotAllowed)
    } else if tier.allowed_order_types & order_type == 0 {
        Some(UmbraError::OrderTypeNotAllowed)
    } else if !can_fund(user_input, input_amount) {
        Some(UmbraError::InsufficientBalance)
    } else {
        None
    }
}

/// Submits an order whose tier comes from an external reputation level
/// read from `identity_data`. The level picks both the tier row and a
/// benefits row: the fee rate is the tier's less the level's discount,
/// floored at zero; the order size is capped; Dark orders need dark-pool
/// access; priority execution raises the protection level.
pub fn submit_order_with_sovereign(
    config: &TierConfig,
    accounts: &SubmitAccounts,
    user_input: &mut TokenAccount,
    identity_owner: &Pubkey,
    identity_data: &[u8],
    order_id: u64,
    input_amount: u64,
    order_type: u8,
    encrypted_payload: Vec<u8>,
    user_encryption_pubkey: Vec<u8>,
    now: i64,
) -> (r: Result<(TieredOrder, TokenAccount), UmbraError>)
    ensures
        match r {
            Ok((order, vault)) => {
                let level = tier_in_record(identity_data@);
                let index = umbra_index_of(level);
                let benefits = benefits_of(level);
                &&& sovereign_submit_error(
                    *config,
                    *accounts,
                    *old(user_input),
                    *identity_owner,
                    identity_data@,
                    input_amount,
                    order_type,
                    encrypted_payload@.len() as int,
                ) is None
                &&& is_new_order(
                    order,
                    *accounts,
                    order_id,
                    input_amount,
                    order_type,
                    encrypted_payload@,
                    user_encryption_pubkey@,
                    now,
                )
                &&& order.user_tier == index
                &&& order.fee_bps_applied == discounted_fee(
                    config.tiers@[index].fee_bps,
                    benefits.fee_discount_bps,
                )
                &&& order.mev_protection_level == (if benefits.priority_execution {
                    MevProtectionLevel::Priority
                } else {
                    config.tiers@[index].mev_protection_level
                })
                &&& order.fairscore_at_creation == fairscore_of_level(level)
                &&& vault == funded_vault(*accounts, input_amount)
                &&& *final(user_input) == old(user_input).with_amount(
                    (old(user_input).amount - input_amount) as u64,
                )
            },
            Err(e) => sovereign_submit_error(
                *config,
                *accounts,
                *old(user_input),
                *identity_owner,
                identity_data@,
                input_amount,
                order_type,
                encrypted_payload@.len() as int,
            ) == Some(e) && *final(user_input) == *old(user_input),
        },
{
    match check_submit_common(config, accounts, user_input, input_amount, encrypted_payload.len()) {
        Ok(()) => {},
        Err(e) => {
            return Err(e);
        },
    }
    if !identity_owner.equals(&accounts.owner) {
        return Err(UmbraError::InvalidSovereignIdentity);
    }
    let sovereign_tier = read_sovereign_tier(identity_data);
    let tier_index = sovereign_tier_to_umbra_index(sovereign_tier);
    let tier: TierDefinition = config.tiers[tier_index];
    let benefits = get_privacy_benefits(sovereign_tier);
    if input_amount > benefits.max_order_size {
        return Err(UmbraError::OrderExceedsTierLimit);
    }
    let order_type_enum = match order_type_from_code(order_type) {
        Some(t) => t,
        None => {
            return Err(UmbraError::OrderTypeNotAllowed);
        },
    };
    if order_type == ORDER_TYPE_DARK && !benefits.dark_pool_access {
        return Err(UmbraError::OrderTypeNotAllowed);
    }
    if tier.allowed_order_types & order_type == 0 {
        return Err(UmbraError::OrderTypeNotAllowed);
    }
    if !user_input.is_open || user_input.amount < input_amount {
        return Err(UmbraError::InsufficientBalance);
    }
    let base_fee_bps = tier.fee_bps;
    let discount = if benefits.fee_discount_bps < base_fee_bps {
        benefits.fee_discount_bps
    } else {
        base_fee_bps
    };
    let fee_bps_applied = base_fee_bps.saturating_sub(discount);
    let mev_protection_level = if benefits.priority_execution {
        MevProtectionLevel::Priority
    } else {
        tier.mev_protection_level
    };
    let (order, vault) = open_order(
        accounts,
        user_input,
        order_id,
        input_amount,
        order_type_enum,
        encrypted_payload,
        user_encryption_pubkey,
        tier_index,
        fee_bps_applied,
        mev_protection_level,
        sovereign_tier_to_fairscore(sovereign_tier),
        now,
    );
    Ok((order, vault))
}

/// Why an execution is refused, if it is.
pub open spec fn execute_error(
    config: TierConfig,
    order: TieredOrder,
    solver: Pubkey,
    order_vault: TokenAccount,
    solver_input: TokenAccount,
    solver_output: TokenAccount,
    fee_vault: TokenAccount,
    decrypted_min_output: u64,
    actual_output_amount: u64,
) -> Option<UmbraError> {
    let fee = fee_of(actual_output_amount as int, order.fee_bps_applied as int);
    let tier = order.user_tier as int;
    if !config.is_active {
        Some(UmbraError::ProtocolPaused)
    } else if config.solver_pubkey@ != solver@ {
        Some(UmbraError::UnauthorizedSolver)
    } else if order.status != OrderStatus::Pending {
        Some(UmbraError::OrderNotExecutable)
    } else if order_vault.owner@ != order.key@ {
        Some(UmbraError::UnauthorizedOwner)
    } else if order_vault.mint@ != order.input_mint@ || solver_input.mint@ != order.input_mint@ {
        Some(UmbraError::InvalidTokenMint)
    } else if solver_input.owner@ != solver@ {
        Some(UmbraError::UnauthorizedSolver)
    } else if solver_output.mint@ != order.output_mint@ {
        Some(UmbraError::InvalidTokenMint)
    } else if solver_output.owner@ != solver@ {
        Some(UmbraError::UnauthorizedSolver)
    } else if fee_vault.key@ != config.fee_vault@ {
        Some(UmbraError::InvalidFeeVault)
    } else if fee_vault.mint@ != order.output_mint@ {
        Some(UmbraError::InvalidTokenMint)
    } else if actual_output_amount < decrypted_min_output {
        Some(UmbraError::SlippageExceeded)
    } else if apply_fee_spec(actual_output_amount, order.fee_bps_applied) is Err {
        Some(UmbraError::ArithmeticOverflow)
    } else if !can_fund(order_vault, order.input_amount) || !can_fund(
        solver_output,
        actual_output_amount,
    ) || !solver_input.is_open || !fee_vault.is_open {
        Some(UmbraError::InsufficientBalance)
    } else if solver_input.amount + order.input_amount > u64::MAX || fee_vault.amount + fee
        > u64::MAX {
        Some(UmbraError::ArithmeticOverflow)
    } else if tier >= NUM_TIERS {
        Some(UmbraError::InvalidTierConfig)
    } else if config.total_orders + 1 > u64::MAX || config.total_volume_by_tier@[tier]
        + order.input_amount > u64::MAX || config.total_fees_collected + fee > u64::MAX {
        Some(UmbraError::ArithmeticOverflow)
    } else {
        None
    }
}

/// Executes a pending order as the configured solver. The input escrow
/// goes to the solver; the solver pays `actual_output_amount` less the fee
/// into a new output vault owned by the order, and the fee into the fee
/// account; the order records the result; the aggregates grow by one
/// order, the input volume of its tier, and the fee. On any failure nothing
/// changes.
pub fn execute_order(
    config: &mut TierConfig,
    order: &mut TieredOrder,
    solver: &Pubkey,
    order_vault: &mut TokenAccount,
    output_vault_key: Pubkey,
    solver_input: &mut TokenAccount,
    solver_output: &mut TokenAccount,
    fee_vault: &mut TokenAccount,
    decrypted_min_output: u64,
    actual_output_amount: u64,
    now: i64,
) -> (r: Result<TokenAccount, UmbraError>)
    ensures
        match r {
            Ok(output_vault) => {
                let fee = fee_of(actual_output_amount as int, old(order).fee_bps_applied as int);
                let net = actual_output_amount - fee;
                let input = old(order).input_amount;
                let tier = old(order).user_tier as int;
                &&& execute_error(
                    *old(config),
                    *old(order),
                    *solver,
                    *old(order_vault),
                    *old(solver_input),
                    *old(solver_output),
                    *old(fee_vault),
                    decrypted_min_output,
                    actual_output_amount,
                ) is None
                &&& output_vault == (TokenAccount {
                    key: output_vault_key,
                    mint: old(order).output_mint,
                    owner: old(order).key,
                    amount: net as u64,
                    is_open: true,
                })
                &&& *final(order) == old(order).executed(
                    decrypted_min_output,
                    net as u64,
                    fee as u64,
                    now,
                    *solver,
                )
                &&& *final(order_vault) == old(order_vault).with_amount(
                    (old(order_vault).amount - input) as u64,
                )
                &&& *final(solver_input) == old(solver_input).with_amount(
                    (old(solver_input).amount + input) as u64,
                )
                &&& *final(solver_output) == old(solver_output).with_amount(
                    (old(solver_output).amount - actual_output_amount) as u64,
                )
                &&& *final(fee_vault) == old(fee_vault).with_amount(
                    (old(fee_vault).amount + fee) as u64,
                )
                &&& final(config).total_orders == old(config).total_orders + 1
                &&& final(config).total_fees_collected == old(config).total_fees_collected + fee
                &&& final(config).total_volume_by_tier@ == old(
                    config,
                ).total_volume_by_tier@.update(
                    tier,
                    (old(config).total_volume_by_tier@[tier] + input) as u64,
                )
                &&& final(config).authority == old(config).authority
                &&& final(config).solver_pubkey == old(config).solver_pubkey
                &&& final(config).tiers == old(config).tiers
                &&& final(config).fee_vault == old(config).fee_vault
                &&& final(config).is_active == old(config).is_active
            },
            Err(e) => {
                &&& execute_error(
                    *old(config),
                    *old(order),
                    *solver,
                    *old(order_vault),
                    *old(solver_input),
                    *old(solver_output),
                    *old(fee_vault),
                    decrypted_min_output,
                    actual_output_amount,
                ) == Some(e)
                &&& *final(config) == *old(config)
                &&& *final(order) == *old(order)
                &&& *final(order_vault) == *old(order_vault)
                &&& *final(solver_input) == *old(solver_input)
                &&& *final(solver_output) == *old(solver_output)
                &&& *final(fee_vault) == *old(fee_vault)
            },
        },
{
    if !config.is_active {
        return Err(UmbraError::ProtocolPaused);
    }
    if !config.solver_pubkey.equals(solver) {
        return Err(UmbraError::UnauthorizedSolver);
    }
    if !order.is_executable() {
        return Err(UmbraError::OrderNotExecutable);
    }
    if !order_vault.owner.equals(&order.key) {
        return Err(UmbraError::UnauthorizedOwner);
    }
    if !order_vault.mint.equals(&order.input_mint) || !solver_input.mint.equals(&order.input_mint) {
        return Err(UmbraError::InvalidTokenMint);
    }
    if !solver_input.owner.equals(solver) {
        return Err(UmbraError::UnauthorizedSolver);
    }
    if !solver_output.mint.equals(&order.output_mint) {
        return Err(UmbraError::InvalidTokenMint);
    }
    if !solver_output.owner.equals(solver) {
        return Err(UmbraError::UnauthorizedSolver);
    }
    if !fee_vault.key.equals(&config.fee_vault) {
        return Err(UmbraError::InvalidFeeVault);
    }
    if !fee_vault.mint.equals(&order.output_mint) {
        return Err(UmbraError::InvalidTokenMint);
    }
    if actual_output_amount < decrypted_min_output {
        return Err(UmbraError::SlippageExceeded);
    }
    let (user_output_amount, fee_amount) = match apply_fee(
        actual_output_amount,
        order.fee_bps_applied,
    ) {
        Ok(split) => split,
        Err(e) => {
            return Err(e);
        },
    };
    let input_amount = order.input_amount;
    if !order_vault.is_open || order_vault.amount < input_amount || !solver_output.is_open
        || solver_output.amount < actual_output_amount || !solver_input.is_open
        || !fee_vault.is_open {
        return Err(UmbraError::InsufficientBalance);
    }
    if solver_input.amount > u64::MAX - input_amount || fee_vault.amount > u64::MAX - fee_amount {
        return Err(UmbraError::ArithmeticOverflow);
    }
    let tier = order.user_tier as usize;
    if tier >= NUM_TIERS {
        return Err(UmbraError::InvalidTierConfig);
    }
    if config.total_orders == u64::MAX || config.total_volume_by_tier[tier] > u64::MAX
        - input_amount || config.total_fees_collected > u64::MAX - fee_amount {
        return Err(UmbraError::ArithmeticOverflow);
    }
    let order_key = order.key;
    let released = transfer(order_vault, solver_input, &order_key, input_amount);
    assert(released is Ok);
    let mut output_vault = TokenAccount::open_vault(output_vault_key, order.output_mint, order.key);
    let paid = transfer(solver_output, &mut output_vault, solver, user_output_amount);
    assert(paid is Ok);
    if fee_amount > 0 {
        let charged = transfer(solver_output, fee_vault, solver, fee_amount);
        assert(charged is Ok);
    }
    order.status = OrderStatus::Completed;
    order.min_output_amount = decrypted_min_output;
    order.output_amount = user_output_amount;
    order.fee_amount = fee_amount;
    order.executed_at = now;
    order.executed_by = Some(*solver);
    config.total_orders = config.total_orders + 1;
    config.total_volume_by_tier[tier] = config.total_volume_by_tier[tier] + input_amount;
    config.total_fees_collected = config.total_fees_collected + fee_amount;
    Ok(output_vault)
}

/// Why a cancellation is refused, if it is. A closed account neither
/// holds nor takes funds.
pub open spec fn cancel_error(order: TieredOrder, owner: Pubkey, order_vault: TokenAccount, user_input: TokenAccount) -> Option<UmbraError> {
    if order.owner@ != owner@ {
        Some(UmbraError::UnauthorizedOwner)
    } else if order.status != OrderStatus::Pending {
        Some(UmbraError::OrderNotCancellable)
    } else if order_vault.owner@ != order.key@ {
        Some(UmbraError::UnauthorizedOwner)
    } else if order_vault.mint@ != order.input_mint@ || user_input.mint@ != order.input_mint@ {
        Some(UmbraError::InvalidTokenMint)
    } else if user_input.owner@ != owner@ {
        Some(UmbraError::UnauthorizedOwner)
    } else if !order_vault.is_open || !user_input.is_open {
        Some(UmbraError::InsufficientBalance)
    } else if user_input.amount + order_vault.amount > u64::MAX {
        Some(UmbraError::ArithmeticOverflow)
    } else {
        None
    }
}

/// Cancels a pending order for its owner: the whole input vault goes back
/// to the owner, the vault is closed, and the order is Cancelled.
pub fn cancel_order(
    order: &mut TieredOrder,
    owner: &Pubkey,
    order_vault: &mut TokenAccount,
    user_input: &mut TokenAccount,
) -> (r: Result<(), UmbraError>)
    ensures
        match cancel_error(*old(order), *owner, *old(order_vault), *old(user_input)) {
            Some(e) => {
                &&& r == Err::<(), UmbraError>(e)
                &&& *final(order) == *old(order)
                &&& *final(order_vault) == *old(order_vault)
                &&& *final(user_input) == *old(user_input)
            },
            None => {
                &&& r is Ok
                &&& *final(order) == old(order).with_status(OrderStatus::Cancelled)
                &&& *final(order_vault) == old(order_vault).closed()
                &&& *final(user_input) == old(user_input).with_amount(
                    (old(user_input).amount + old(order_vault).amount) as u64,
                )
            },
        },
{
    if !order.owner.equals(owner) {
        return Err(UmbraError::UnauthorizedOwner);
    }
    if !order.is_cancellable() {
        return Err(UmbraError::OrderNotCancellable);
    }
    if !order_vault.owner.equals(&order.key) {
        return Err(UmbraError::UnauthorizedOwner);
    }
    if !order_vault.mint.equals(&order.input_mint) || !user_input.mint.equals(&order.input_mint) {
        return Err(UmbraError::InvalidTokenMint);
    }
    if !user_input.owner.equals(owner) {
        return Err(UmbraError::UnauthorizedOwner);
    }
    if !order_vault.is_open || !user_input.is_open {
        return Err(UmbraError::InsufficientBalance);
    }
    if user_input.amount > u64::MAX - order_vault.amount {
        return Err(UmbraError::ArithmeticOverflow);
    }
    let order_key = order.key;
    let returned = release_and_close(order_vault, user_input, &order_key);
    assert(returned is Ok);
    order.status = OrderStatus::Cancelled;
    Ok(())
}

/// Why a claim is refused, if it is. An empty or closed output vault
/// means the output was already claimed.
pub open spec fn claim_error(order: TieredOrder, owner: Pubkey, output_vault: TokenAccount, user_output: TokenAccount) -> Option<UmbraError> {
    if order.owner@ != owner@ {
        Some(UmbraError::UnauthorizedOwner)
    } else if order.status != OrderStatus::Completed {
        Some(UmbraError::OrderNotClaimable)
    } else if output_vault.owner@ != order.key@ {
        Some(UmbraError::UnauthorizedOwner)
    } else if output_vault.mint@ != order.output_mint@ || user_output.mint@ != order.output_mint@ {
        Some(UmbraError::InvalidTokenMint)
    } else if user_output.owner@ != owner@ {
        Some(UmbraError::UnauthorizedOwner)
    } else if !output_vault.is_open || output_vault.amount == 0 {
        Some(UmbraError::AlreadyClaimed)
    } else if !user_output.is_open {
        Some(UmbraError::InsufficientBalance)
    } else if user_output.amount + output_vault.amount > u64::MAX {
        Some(UmbraError::ArithmeticOverflow)
    } else {
        None
    }
}

/// Pays an executed order's whole output vault to its owner and closes
/// the vault; returns the amount paid.
pub fn claim_output(
    order: &TieredOrder,
    owner: &Pubkey,
    output_vault: &mut TokenAccount,
    user_output: &mut TokenAccount,
) -> (r: Result<u64, UmbraError>)
    ensures
        match claim_error(*order, *owner, *old(output_vault), *old(user_output)) {
            Some(e) => {
                &&& r == Err::<u64, UmbraError>(e)
                &&& *final(output_vault) == *old(output_vault)
                &&& *final(user_output) == *old(user_output)
            },
            None => {
                &&& r == Ok::<u64, UmbraError>(old(output_vault).amount)
                &&& *final(output_vault) == old(output_vault).closed()
                &&& *final(user_output) == old(user_output).with_amount(
                    (old(user_output).amount + old(output_vault).amount) as u64,
                )
            },
        },
{
    if !order.owner.equals(owner) {
        return Err(UmbraError::UnauthorizedOwner);
    }
    if !order.is_claimable() {
        return Err(UmbraError::OrderNotClaimable);
    }
    if !output_vault.owner.equals(&order.key) {
        return Err(UmbraError::UnauthorizedOwner);
    }
    if !output_vault.mint.equals(&order.output_mint) || !user_output.mint.equals(
        &order.output_mint,
    ) {
        return Err(UmbraError::InvalidTokenMint);
    }
    if !user_output.owner.equals(owner) {
        return Err(UmbraError::UnauthorizedOwner);
    }
    if !output_vault.is_open || output_vault.amount == 0 {
        return Err(UmbraError::AlreadyClaimed);
    }
    if !user_output.is_open {
        return Err(UmbraError::InsufficientBalance);
    }
    if user_output.amount > u64::MAX - output_vault.amount {
        return Err(UmbraError::ArithmeticOverflow);
    }
    match release_and_close(output_vault, user_output, &order.key) {
        Ok(amount) => Ok(amount),
        Err(_) => Err(UmbraError::InsufficientBalance),
    }
}

/// Once cancelled, an order can never be cancelled again.
pub proof fn lemma_cancel_once(
    order: TieredOrder,
    owner: Pubkey,
    order_vault: TokenAccount,
    user_input: TokenAccount,
    later_vault: TokenAccount,
    later_input: TokenAccount,
)
    requires
        cancel_error(order, owner, order_vault, user_input) is None,
    ensures
        cancel_error(order.with_status(OrderStatus::Cancelled), owner, later_vault, later_input)
            == Some(UmbraError::OrderNotCancellable),
{
}

/// Once claimed, an order's output can never be claimed again from the
/// same vault, whoever asks and wherever it would go.
pub proof fn lemma_claim_once(
    order: TieredOrder,
    owner: Pubkey,
    output_vault: TokenAccount,
    user_output: TokenAccount,
    later_owner: Pubkey,
    later_output: TokenAccount,
)
    requires
        claim_error(order, owner, output_vault, user_output) is None,
    ensures
        claim_error(order, later_owner, output_vault.closed(), later_output) is Some,
        later_owner@ == owner@ && later_output.mint@ == order.output_mint@ && later_output.owner@
            == owner@ ==> claim_error(order, later_owner, output_vault.closed(), later_output)
            == Some(UmbraError::AlreadyClaimed),
{
}

/// An execution whose output falls short of the attested minimum never
/// succeeds.
pub proof fn lemma_slippage_rejected(
    config: TierConfig,
    order: TieredOrder,
    solver: Pubkey,
    order_vault: TokenAccount,
    solver_input: TokenAccount,
    solver_output: TokenAccount,
    fee_vault: TokenAccount,
    decrypted_min_output: u64,
    actual_output_amount: u64,
)
    requires
        actual_output_amount < decrypted_min_output,
    ensures
        execute_error(
            config,
            order,
            solver,
            order_vault,
            solver_input,
            solver_output,
            fee_vault,
            decrypted_min_output,
            actual_output_amount,
        ) is Some,
{
}

/// A new configuration with the initial tier table, `authority` as its
/// administrator and `solver_pubkey` as its only solver.
pub fn initialize(authority: Pubkey, solver_pubkey: Pubkey, fee_vault: Pubkey) -> (r: TierConfig)
    ensures
        r.authority == authority,
        r.solver_pubkey == solver_pubkey,
        r.fee_vault == fee_vault,
        has_default_tiers(r.tiers@),
        forall|i: int| 0 <= i < 5 ==> r.total_volume_by_tier@[i] == 0,
        r.total_fees_collected == 0,
        r.total_orders == 0,
        r.is_active,
{
    TierConfig::new(authority, solver_pubkey, fee_vault)
}

/// Why a tier update is refused, if it is.
pub open spec fn update_tier_error(config: TierConfig, authority: Pubkey, tier_index: u8, min_fairscore: u8, fee_bps: u16) -> Option<UmbraError> {
    if config.authority@ != authority@ {
        Some(UmbraError::UnauthorizedOwner)
    } else if tier_index >= NUM_TIERS {
        Some(UmbraError::InvalidTierConfig)
    } else if min_fairscore > MAX_FAIRSCORE {
        Some(UmbraError::InvalidFairScore)
    } else if fee_bps > MAX_FEE_BPS {
        Some(UmbraError::InvalidTierConfig)
    } else {
        None
    }
}

/// Replaces one row of the tier table, as the configuration's authority.
pub fn update_tier(
    config: &mut TierConfig,
    authority: &Pubkey,
    tier_index: u8,
    min_fairscore: u8,
    fee_bps: u16,
    mev_protection_level: u8,
    allowed_order_types: u8,
    derivatives_access: u8,
) -> (r: Result<(), UmbraError>)
    ensures
        match update_tier_error(*old(config), *authority, tier_index, min_fairscore, fee_bps) {
            Some(e) => r == Err::<(), UmbraError>(e) && *final(config) == *old(config),
            None => r is Ok && *final(config) == (TierConfig {
                tiers: final(config).tiers,
                ..*old(config)
            }) && final(config).tiers@ == old(config).tiers@.update(
                tier_index as int,
                TierDefinition {
                    min_fairscore,
                    fee_bps,
                    mev_protection_level: mev_level_of(mev_protection_level),
                    allowed_order_types,
                    derivatives_access,
                },
            ),
        },
{
    if !config.authority.equals(authority) {
        return Err(UmbraError::UnauthorizedOwner);
    }
    if tier_index as usize >= NUM_TIERS {
        return Err(UmbraError::InvalidTierConfig);
    }
    if min_fairscore > MAX_FAIRSCORE {
        return Err(UmbraError::InvalidFairScore);
    }
    if fee_bps > MAX_FEE_BPS {
        return Err(UmbraError::InvalidTierConfig);
    }
    config.tiers[tier_index as usize] = TierDefinition {
        min_fairscore,
        fee_bps,
        mev_protection_level: mev_level_from_code(mev_protection_level),
        allowed_order_types,
        derivatives_access,
    };
    Ok(())
}

/// Pauses or resumes the protocol, as the configuration's authority.
pub fn set_active(config: &mut TierConfig, authority: &Pubkey, is_active: bool) -> (r: Result<(), UmbraError>)
    ensures
        if old(config).authority@ != authority@ {
            r == Err::<(), UmbraError>(UmbraError::UnauthorizedOwner) && *final(config) == *old(config)
        } else {
            r is Ok && *final(config) == (TierConfig { is_active, ..*old(config) })
        },
{
    if !config.authority.equals(authority) {
        return Err(UmbraError::UnauthorizedOwner);
    }
    config.is_active = is_active;
    Ok(())
}

} // verus!
