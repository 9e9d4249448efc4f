//! Token accounts and escrow vaults. A vault is a token account whose
//! owner is an order's key, so only the engine acting for that order can
//! move its funds.

use vstd::prelude::*;
use crate::keys::Pubkey;

verus! {

/// A balance of one asset, debited only under its owner's key.
#[derive(Debug, Clone, Copy)]
pub struct TokenAccount {
    /// Address of the account.
    pub key: Pubkey,
    /// Asset held.
    pub mint: Pubkey,
    /// Key that authorizes debits: a participant, or an order for a vault.
    pub owner: Pubkey,
    pub amount: u64,
    /// Cleared once the account is closed; a closed account holds nothing.
    pub is_open: bool,
}

/// Why a ledger operation was refused.
#[derive(Debug, Clone, Copy, PartialEq, Eq, Structural)]
pub enum LedgerError {
    AccountClosed,
    OwnerMismatch,
    MintMismatch,
    InsufficientFunds,
    Overflow,
    NonZeroBalance,
}

impl TokenAccount {
    /// An open account of `mint` owned by `owner`, holding `amount`.
    pub fn new(key: Pubkey, mint: Pubkey, owner: Pubkey, amount: u64) -> (r: TokenAccount)
        ensures
            r == (TokenAccount { key, mint, owner, amount, is_open: true }),
    {
        TokenAccount { key, mint, owner, amount, is_open: true }
    }

    /// An open, empty vault of `mint` bound to the order whose key is
    /// `order_key`.
    pub fn open_vault(key: Pubkey, mint: Pubkey, order_key: Pubkey) -> (r: TokenAccount)
        ensures
            r == (TokenAccount { key, mint, owner: order_key, amount: 0, is_open: true }),
    {
        TokenAccount { key, mint, owner: order_key, amount: 0, is_open: true }
    }

    pub open spec fn with_amount(self, amount: u64) -> TokenAccount {
        TokenAccount {
            key: self.key,
            mint: self.mint,
            owner: self.owner,
            amount,
            is_open: self.is_open,
        }
    }

    pub open spec fn closed(self) -> TokenAccount {
        TokenAccount {
            key: self.key,
            mint: self.mint,
            owner: self.owner,
            amount: 0,
            is_open: false,
        }
    }
}

/// Why moving `amount` from `from` to `to` under `authority` is refused,
/// if it is.
pub open spec fn transfer_error(from: TokenAccount, to: TokenAccount, authority: Seq<u8>, amount: u64) -> Option<LedgerError> {
    if !from.is_open || !to.is_open {
        Some(LedgerError::AccountClosed)
    } else if from.owner@ != authority {
        Some(LedgerError::OwnerMismatch)
    } else if from.mint@ != to.mint@ {
        Some(LedgerError::MintMismatch)
    } else if from.amount < amount {
        Some(LedgerError::InsufficientFunds)
    } else if to.amount + amount > u64::MAX {
        Some(LedgerError::Overflow)
    } else {
        None
    }
}

/// Moves `amount` from `from` to `to`, authorized by `authority`; on
/// failure neither account changes.
pub fn transfer(from: &mut TokenAccount, to: &mut TokenAccount, authority: &Pubkey, amount: u64) -> (r: Result<(), LedgerError>)
    ensures
        match transfer_error(*old(from), *old(to), authority@, amount) {
            Some(e) => r == Err::<(), LedgerError>(e) && *final(from) == *old(from) && *final(to)
                == *old(to),
            None => r is Ok && *final(from) == old(from).with_amount(
                (old(from).amount - amount) as u64,
            ) && *final(to) == old(to).with_amount((old(to).amount + amount) as u64),
        },
{
    if !from.is_open || !to.is_open {
        return Err(LedgerError::AccountClosed);
    }
    if !from.owner.equals(authority) {
        return Err(LedgerError::OwnerMismatch);
    }
    if !from.mint.equals(&to.mint) {
        return Err(LedgerError::MintMismatch);
    }
    if from.amount < amount {
        return Err(LedgerError::InsufficientFunds);
    }
    if to.amount > u64::MAX - amount {
        return Err(LedgerError::Overflow);
    }
    from.amount = from.amount - amount;
    to.amount = to.amount + amount;
    Ok(())
}

/// Why closing `account` under `authority` is refused, if it is.
pub open spec fn close_error(account: TokenAccount, authority: Seq<u8>) -> Option<LedgerError> {
    if !account.is_open {
        Some(LedgerError::AccountClosed)
    } else if account.owner@ != authority {
        Some(LedgerError::OwnerMismatch)
    } else if account.amount != 0 {
        Some(LedgerError::NonZeroBalance)
    } else {
        None
    }
}

/// Closes an empty account, authorized by `authority`.
pub fn close_account(account: &mut TokenAccount, authority: &Pubkey) -> (r: Result<(), LedgerError>)
    ensures
        match close_error(*old(account), authority@) {
            Some(e) => r == Err::<(), LedgerError>(e) && *final(account) == *old(account),
            None => r is Ok && *final(account) == old(account).closed(),
        },
{
    if !account.is_open {
        return Err(LedgerError::AccountClosed);
    }
    if !account.owner.equals(authority) {
        return Err(LedgerError::OwnerMismatch);
    }
    if account.amount != 0 {
        return Err(LedgerError::NonZeroBalance);
    }
    account.is_open = false;
    Ok(())
}

/// Moves a vault's whole balance to `to` and closes the vault, both under
/// `authority`; on failure neither account changes.
pub fn release_and_close(vault: &mut TokenAccount, to: &mut TokenAccount, authority: &Pubkey) -> (r: Result<u64, LedgerError>)
    ensures
        match transfer_error(*old(vault), *old(to), authority@, old(vault).amount) {
            Some(e) => r == Err::<u64, LedgerError>(e) && *final(vault) == *old(vault) && *final(to)
                == *old(to),
            None => r == Ok::<u64, LedgerError>(old(vault).amount) && *final(vault) == old(
                vault,
            ).closed() && *final(to) == old(to).with_amount(
                (old(to).amount + old(vault).amount) as u64,
            ),
        },
{
    let balance = vault.amount;
    match transfer(vault, to, authority, balance) {
        Ok(()) => {},
        Err(e) => {
            return Err(e);
        },
    }
    match close_account(vault, authority) {
        Ok(()) => {},
        Err(e) => {
            return Err(e);
        },
    }
    Ok(balance)
}

} // verus!
