//! Confidential token launches: buyers pay in public, but what each bought
//! is kept as an encrypted running total.

use vstd::prelude::*;
use crate::dark::saturating_add_spec;
use crate::errors::DarkFlowError;
use crate::keys::{is_all_zero, is_zero_bytes, Pubkey};
use crate::ledger::{transfer, TokenAccount};

verus! {

/// Most bytes of encrypted curve parameters.
pub const MAX_CURVE_PARAMS: usize = 256;

/// Most bytes of one encrypted purchase amount.
pub const MAX_PURCHASE_DATA: usize = 128;

#[derive(Debug, Clone, Copy, PartialEq, Eq, Structural)]
pub enum LaunchStatus {
    Active,
    SoldOut,
    Cancelled,
    Ended,
}

/// A token sale whose bonding-curve parameters and sold amount are
/// encrypted; only payments and buyer counts are public.
#[derive(Debug, Clone)]
pub struct ConfidentialLaunch {
    pub creator: Pubkey,
    pub token_mint: Pubkey,
    pub payment_mint: Pubkey,
    pub encrypted_curve_params: Vec<u8>,
    /// Payment per token; never zero.
    pub initial_price: u64,
    pub max_supply: u64,
    pub encrypted_sold: Vec<u8>,
    /// Public, approximate count of tokens sold.
    pub approximate_sold: u64,
    pub buyer_count: u64,
    pub total_payments: u64,
    pub status: LaunchStatus,
    pub start_time: i64,
    /// Zero for a sale without end.
    pub end_time: i64,
    pub state_commitment: [u8; 32],
    pub created_at: i64,
}

/// A purchase record: the amount bought stays encrypted.
#[derive(Debug, Clone)]
pub struct ConfidentialPurchase {
    pub buyer: Pubkey,
    pub launch: Pubkey,
    pub encrypted_amount: Vec<u8>,
    pub commitment: [u8; 32],
    pub payment_amount: u64,
    pub purchased_at: i64,
    pub claimed: bool,
}

impl ConfidentialLaunch {
    pub open spec fn active_at(&self, now: i64) -> bool {
        &&& self.status == LaunchStatus::Active
        &&& now >= self.start_time
        &&& !(self.end_time > 0 && now > self.end_time)
    }

    /// Whether the sale is open at `now`.
    pub fn is_active(&self, now: i64) -> (r: bool)
        ensures
            r == self.active_at(now),
    {
        if self.status != LaunchStatus::Active {
            return false;
        }
        if now < self.start_time {
            return false;
        }
        if self.end_time > 0 && now > self.end_time {
            return false;
        }
        true
    }

    /// Records a payment: the totals grow, saturating, by the payment, one
    /// buyer, and the tokens the payment buys at the initial price.
    pub fn record_purchase(&mut self, payment_amount: u64, encrypted_sold_update: Vec<u8>)
        requires
            old(self).initial_price > 0,
        ensures
            final(self).total_payments == saturating_add_spec(
                old(self).total_payments,
                payment_amount,
            ),
            final(self).buyer_count == saturating_add_spec(old(self).buyer_count, 1),
            final(self).encrypted_sold@ == encrypted_sold_update@,
            final(self).approximate_sold == saturating_add_spec(
                old(self).approximate_sold,
                (payment_amount / old(self).initial_price) as u64,
            ),
            *final(self) == (ConfidentialLaunch {
                total_payments: final(self).total_payments,
                buyer_count: final(self).buyer_count,
                encrypted_sold: final(self).encrypted_sold,
                approximate_sold: final(self).approximate_sold,
                ..*old(self)
            }),
    {
        self.total_payments = self.total_payments.saturating_add(payment_amount);
        self.buyer_count = self.buyer_count.saturating_add(1);
        self.encrypted_sold = encrypted_sold_update;
        self.approximate_sold = self.approximate_sold.saturating_add(
            payment_amount / self.initial_price,
        );
    }

    pub fn end(&mut self)
        ensures
            *final(self) == (ConfidentialLaunch { status: LaunchStatus::Ended, ..*old(self) }),
    {
        self.status = LaunchStatus::Ended;
    }

    pub fn mark_sold_out(&mut self)
        ensures
            *final(self) == (ConfidentialLaunch { status: LaunchStatus::SoldOut, ..*old(self) }),
    {
        self.status = LaunchStatus::SoldOut;
    }

    pub fn cancel(&mut self)
        ensures
            *final(self) == (ConfidentialLaunch { status: LaunchStatus::Cancelled, ..*old(self) }),
    {
        self.status = LaunchStatus::Cancelled;
    }
}

/// Opens a sale starting at `now` with no end; a zero price or supply, or
/// curve parameters outside 1..=256 bytes, are refused.
pub fn launch_confidential_token(
    creator: Pubkey,
    token_mint: Pubkey,
    payment_mint: Pubkey,
    encrypted_curve_params: Vec<u8>,
    initial_price: u64,
    max_supply: u64,
    now: i64,
) -> (r: Result<ConfidentialLaunch, DarkFlowError>)
    ensures
        initial_price == 0 || max_supply == 0 ==> r == Err::<ConfidentialLaunch, DarkFlowError>(
            DarkFlowError::InvalidAmount,
        ),
        initial_price > 0 && max_supply > 0 && !(0 < encrypted_curve_params@.len()
            <= MAX_CURVE_PARAMS) ==> r == Err::<ConfidentialLaunch, DarkFlowError>(
            DarkFlowError::InvalidEncryptedData,
        ),
        r is Ok <==> (initial_price > 0 && max_supply > 0 && 0 < encrypted_curve_params@.len()
            <= MAX_CURVE_PARAMS),
        r matches Ok(launch) ==> {
            &&& launch.creator == creator
            &&& launch.token_mint == token_mint
            &&& launch.payment_mint == payment_mint
            &&& launch.encrypted_curve_params@ == encrypted_curve_params@
            &&& launch.initial_price == initial_price
            &&& launch.max_supply == max_supply
            &&& launch.encrypted_sold@.len() == 0
            &&& launch.approximate_sold == 0
            &&& launch.buyer_count == 0
            &&& launch.total_payments == 0
            &&& launch.status == LaunchStatus::Active
            &&& launch.start_time == now
            &&& launch.end_time == 0
            &&& is_zero_bytes(launch.state_commitment@)
            &&& launch.created_at == now
        },
{
    if initial_price == 0 || max_supply == 0 {
        return Err(DarkFlowError::InvalidAmount);
    }
    if encrypted_curve_params.len() == 0 || encrypted_curve_params.len() > MAX_CURVE_PARAMS {
        return Err(DarkFlowError::InvalidEncryptedData);
    }
    let launch = ConfidentialLaunch {
        creator,
        token_mint,
        payment_mint,
        encrypted_curve_params,
        initial_price,
        max_supply,
        encrypted_sold: Vec::new(),
        approximate_sold: 0,
        buyer_count: 0,
        total_payments: 0,
        status: LaunchStatus::Active,
        start_time: now,
        end_time: 0,
        state_commitment: [0u8; 32],
        created_at: now,
    };
    assert(is_zero_bytes(launch.state_commitment@));
    Ok(launch)
}

/// Tokens that `payment` buys at the launch's price.
pub fn calculate_tokens_for_payment(payment: u64, initial_price: u64) -> (r: u64)
    ensures
        r == payment / (if initial_price == 0 {
            1
        } else {
            initial_price
        }),
{
    let price: u64 = if initial_price == 0 {
        1
    } else {
        initial_price
    };
    payment / price
}

/// The encrypted running total after adding one encrypted purchase: the
/// place where homomorphic addition plugs in, here the two ciphertexts
/// kept side by side.
pub fn update_encrypted_sold(current: &[u8], addition: &[u8]) -> (r: Vec<u8>)
    ensures
        r@ == current@ + addition@,
{
    let mut out: Vec<u8> = Vec::new();
    let mut i: usize = 0;
    while i < current.len()
        invariant
            i <= current@.len(),
            out@ == current@.subrange(0, i as int),
        decreases current@.len() - i,
    {
        out.push(current[i]);
        i += 1;
    }
    let mut j: usize = 0;
    while j < addition.len()
        invariant
            j <= addition@.len(),
            out@ == current@ + addition@.subrange(0, j as int),
        decreases addition@.len() - j,
    {
        out.push(addition[j]);
        j += 1;
    }
    assert(addition@.subrange(0, addition@.len() as int) =~= addition@);
    out
}

/// Why a purchase is refused, if it is.
pub open spec fn buy_error(
    launch: ConfidentialLaunch,
    buyer: Pubkey,
    buyer_payment: TokenAccount,
    launch_vault: TokenAccount,
    encrypted_len: int,
    commitment: Seq<u8>,
    payment_amount: u64,
    now: i64,
) -> Option<DarkFlowError> {
    let tokens = payment_amount / (if launch.initial_price == 0 {
        1
    } else {
        launch.initial_price
    });
    if !launch.active_at(now) {
        Some(DarkFlowError::LaunchNotActive)
    } else if payment_amount == 0 {
        Some(DarkFlowError::InvalidAmount)
    } else if !(0 < encrypted_len <= MAX_PURCHASE_DATA) {
        Some(DarkFlowError::InvalidEncryptedData)
    } else if is_zero_bytes(commitment) {
        Some(DarkFlowError::InvalidCommitment)
    } else if launch.approximate_sold + tokens > launch.max_supply {
        Some(DarkFlowError::LaunchSoldOut)
    } else if buyer_payment.owner@ != buyer@ {
        Some(DarkFlowError::Unauthorized)
    } else if buyer_payment.mint@ != launch_vault.mint@ {
        Some(DarkFlowError::InvalidTokenMint)
    } else if !buyer_payment.is_open || !launch_vault.is_open || buyer_payment.amount
        < payment_amount {
        Some(DarkFlowError::InsufficientBalance)
    } else if launch_vault.amount + payment_amount > u64::MAX {
        Some(DarkFlowError::MathOverflow)
    } else {
        None
    }
}

/// Buys from an open sale: the payment moves to the sale's vault, the
/// encrypted purchase joins the encrypted total, the public totals grow,
/// and the sale is sold out once the approximate count reaches its supply.
pub fn buy_from_launch(
    launch: &mut ConfidentialLaunch,
    buyer: &Pubkey,
    buyer_payment: &mut TokenAccount,
    launch_vault: &mut TokenAccount,
    encrypted_amount: &[u8],
    commitment: [u8; 32],
    payment_amount: u64,
    now: i64,
) -> (r: Result<(), DarkFlowError>)
    requires
        old(launch).initial_price > 0,
    ensures
        ({
            let error = buy_error(
                *old(launch),
                *buyer,
                *old(buyer_payment),
                *old(launch_vault),
                encrypted_amount@.len() as int,
                commitment@,
                payment_amount,
                now,
            );
            let tokens = payment_amount / old(launch).initial_price;
            match r {
                Err(e) => {
                    &&& error == Some(e)
                    &&& *final(launch) == *old(launch)
                    &&& *final(buyer_payment) == *old(buyer_payment)
                    &&& *final(launch_vault) == *old(launch_vault)
                },
                Ok(()) => {
                    &&& error is None
                    &&& *final(buyer_payment) == old(buyer_payment).with_amount(
                        (old(buyer_payment).amount - payment_amount) as u64,
                    )
                    &&& *final(launch_vault) == old(launch_vault).with_amount(
                        (old(launch_vault).amount + payment_amount) as u64,
                    )
                    &&& final(launch).encrypted_sold@ == old(launch).encrypted_sold@
                        + encrypted_amount@
                    &&& final(launch).approximate_sold == old(launch).approximate_sold + tokens
                    &&& final(launch).total_payments == saturating_add_spec(
                        old(launch).total_payments,
                        payment_amount,
                    )
                    &&& final(launch).buyer_count == saturating_add_spec(
                        old(launch).buyer_count,
                        1,
                    )
                    &&& final(launch).status == (if final(launch).approximate_sold
                        >= old(launch).max_supply {
                        LaunchStatus::SoldOut
                    } else {
                        LaunchStatus::Active
                    })
                },
            }
        }),
{
    if !launch.is_active(now) {
        return Err(DarkFlowError::LaunchNotActive);
    }
    if payment_amount == 0 {
        return Err(DarkFlowError::InvalidAmount);
    }
    if encrypted_amount.len() == 0 || encrypted_amount.len() > MAX_PURCHASE_DATA {
        return Err(DarkFlowError::InvalidEncryptedData);
    }
    if is_all_zero(&commitment) {
        return Err(DarkFlowError::InvalidCommitment);
    }
    let tokens = calculate_tokens_for_payment(payment_amount, launch.initial_price);
    if launch.approximate_sold > launch.max_supply || tokens > launch.max_supply
        - launch.approximate_sold {
        return Err(DarkFlowError::LaunchSoldOut);
    }
    if !buyer_payment.owner.equals(buyer) {
        return Err(DarkFlowError::Unauthorized);
    }
    if !buyer_payment.mint.equals(&launch_vault.mint) {
        return Err(DarkFlowError::InvalidTokenMint);
    }
    if !buyer_payment.is_open || !launch_vault.is_open || buyer_payment.amount < payment_amount {
        return Err(DarkFlowError::InsufficientBalance);
    }
    if launch_vault.amount > u64::MAX - payment_amount {
        return Err(DarkFlowError::MathOverflow);
    }
    let paid = transfer(buyer_payment, launch_vault, buyer, payment_amount);
    assert(paid is Ok);
    let encrypted_sold_update = update_encrypted_sold(
        launch.encrypted_sold.as_slice(),
        encrypted_amount,
    );
    launch.record_purchase(payment_amount, encrypted_sold_update);
    if launch.approximate_sold >= launch.max_supply {
        launch.mark_sold_out();
    }
    Ok(())
}

} // verus!
