//! The three operations of the fungible-token sub-system that the swap
//! uses: initialize an account, transfer, close an account.

use vstd::prelude::*;
use spl_token::solana_program::program_pack::Pack;
use crate::error::LedgerError;
use crate::ledger::{Account, AccountData, Ledger, TokenAccount};
use crate::pubkey::Pubkey;
use crate::utils::{balance, credited, ledger_step};

verus! {

/// Bytes reserved for a token account.
pub open spec fn spec_token_account_len() -> usize {
    165
}

/// `spl_token::state::Account::LEN`: the bytes that a token account takes,
/// which the crate fixes at 165.
#[verifier::external_body]
fn account_len() -> (n: usize)
    ensures
        n == 165,
{
    spl_token::state::Account::LEN
}

/// Bytes reserved for a token account.
#[verifier::when_used_as_spec(spec_token_account_len)]
pub fn token_account_len() -> (n: usize)
    ensures
        n == spec_token_account_len(),
{
    account_len()
}

/// The token account that an account holds; meaningful only where
/// `is_token` holds.
pub open spec fn token_of(accounts: Map<Pubkey, Account>, key: Pubkey) -> TokenAccount {
    match accounts[key].data {
        AccountData::Token(t) => t,
        _ => arbitrary(),
    }
}

/// Whether a token account stands under the address.
pub open spec fn is_token(accounts: Map<Pubkey, Account>, key: Pubkey) -> bool {
    accounts.contains_key(key) && accounts[key].data is Token
}

/// The account with another number of tokens in it.
pub open spec fn with_amount(account: Account, amount: u64) -> Account {
    match account.data {
        AccountData::Token(t) => Account {
            data: AccountData::Token(TokenAccount { amount, ..t }),
            ..account
        },
        _ => account,
    }
}

/// What initializing a token account does to the accounts, or why it is
/// refused.
pub open spec fn initialize_account_spec(
    accounts: Map<Pubkey, Account>,
    account: Pubkey,
    mint: Pubkey,
    authority: Pubkey,
) -> Result<Map<Pubkey, Account>, LedgerError> {
    if !accounts.contains_key(account) {
        Err(LedgerError::AccountNotFound)
    } else if accounts[account].data != AccountData::Empty {
        Err(LedgerError::AccountAlreadyInUse)
    } else if accounts[account].space != spec_token_account_len() {
        Err(LedgerError::InvalidAccountData)
    } else {
        Ok(
            accounts.insert(
                account,
                Account {
                    data: AccountData::Token(TokenAccount { mint, authority, amount: 0 }),
                    ..accounts[account]
                },
            ),
        )
    }
}

/// Makes the empty account `account`, of the size of a token account, a
/// token account for `mint` that `authority` controls and that holds nothing.
pub fn initialize_account(
    ledger: &mut Ledger,
    account: &Pubkey,
    mint: &Pubkey,
    authority: &Pubkey,
) -> (r: Result<(), LedgerError>)
    ensures
        ledger_step(
            old(ledger)@,
            final(ledger)@,
            r,
            initialize_account_spec(old(ledger)@, *account, *mint, *authority),
        ),
{
    let found = match ledger.get(account) {
        Some(found) => found,
        None => {
            return Err(LedgerError::AccountNotFound);
        },
    };
    match found.data {
        AccountData::Empty => {},
        _ => {
            return Err(LedgerError::AccountAlreadyInUse);
        },
    }
    if found.space != token_account_len() as u64 {
        return Err(LedgerError::InvalidAccountData);
    }
    let token = TokenAccount { mint: *mint, authority: *authority, amount: 0 };
    ledger.set(*account, Account { data: AccountData::Token(token), ..found });
    Ok(())
}

/// What a transfer of tokens does to the accounts, or why it is refused.
pub open spec fn transfer_spec(
    accounts: Map<Pubkey, Account>,
    from: Pubkey,
    to: Pubkey,
    authority: Pubkey,
    amount: u64,
) -> Result<Map<Pubkey, Account>, LedgerError> {
    if !accounts.contains_key(from) || !accounts.contains_key(to) {
        Err(LedgerError::AccountNotFound)
    } else if !is_token(accounts, from) || !is_token(accounts, to) {
        Err(LedgerError::InvalidAccountData)
    } else if token_of(accounts, from).amount < amount {
        Err(LedgerError::InsufficientFunds)
    } else if token_of(accounts, from).mint != token_of(accounts, to).mint {
        Err(LedgerError::MintMismatch)
    } else if token_of(accounts, from).authority != authority {
        Err(LedgerError::OwnerMismatch)
    } else if from == to {
        Ok(accounts)
    } else if token_of(accounts, to).amount + amount > u64::MAX {
        Err(LedgerError::BalanceOverflow)
    } else {
        Ok(
            accounts.insert(
                from,
                with_amount(accounts[from], (token_of(accounts, from).amount - amount) as u64),
            ).insert(to, with_amount(accounts[to], (token_of(accounts, to).amount + amount) as u64)),
        )
    }
}

/// Moves `amount` tokens from the token account `from` to the token account
/// `to` of the same asset, on the word of `authority`, which must be the
/// authority of `from`.
pub fn transfer(
    ledger: &mut Ledger,
    from: &Pubkey,
    to: &Pubkey,
    authority: &Pubkey,
    amount: u64,
) -> (r: Result<(), LedgerError>)
    ensures
        ledger_step(
            old(ledger)@,
            final(ledger)@,
            r,
            transfer_spec(old(ledger)@, *from, *to, *authority, amount),
        ),
{
    let source = match ledger.get(from) {
        Some(found) => found,
        None => {
            return Err(LedgerError::AccountNotFound);
        },
    };
    let target = match ledger.get(to) {
        Some(found) => found,
        None => {
            return Err(LedgerError::AccountNotFound);
        },
    };
    let source_token = match source.data {
        AccountData::Token(t) => t,
        _ => {
            return Err(LedgerError::InvalidAccountData);
        },
    };
    let target_token = match target.data {
        AccountData::Token(t) => t,
        _ => {
            return Err(LedgerError::InvalidAccountData);
        },
    };
    if source_token.amount < amount {
        return Err(LedgerError::InsufficientFunds);
    }
    if source_token.mint != target_token.mint {
        return Err(LedgerError::MintMismatch);
    }
    if source_token.authority != *authority {
        return Err(LedgerError::OwnerMismatch);
    }
    if *from == *to {
        return Ok(());
    }
    if target_token.amount > u64::MAX - amount {
        return Err(LedgerError::BalanceOverflow);
    }
    let left = TokenAccount { amount: source_token.amount - amount, ..source_token };
    let grown = TokenAccount { amount: target_token.amount + amount, ..target_token };
    ledger.set(*from, Account { data: AccountData::Token(left), ..source });
    ledger.set(*to, Account { data: AccountData::Token(grown), ..target });
    Ok(())
}

/// What closing a token account does to the accounts, or why it is refused.
pub open spec fn close_account_spec(
    accounts: Map<Pubkey, Account>,
    account: Pubkey,
    destination: Pubkey,
    authority: Pubkey,
) -> Result<Map<Pubkey, Account>, LedgerError> {
    if account == destination {
        Err(LedgerError::InvalidAccountData)
    } else if !accounts.contains_key(account) {
        Err(LedgerError::AccountNotFound)
    } else if !is_token(accounts, account) {
        Err(LedgerError::InvalidAccountData)
    } else if token_of(accounts, account).amount != 0 {
        Err(LedgerError::NonZeroBalance)
    } else if token_of(accounts, account).authority != authority {
        Err(LedgerError::OwnerMismatch)
    } else if balance(accounts, destination) + accounts[account].lamports > u64::MAX {
        Err(LedgerError::BalanceOverflow)
    } else {
        Ok(credited(accounts, destination, accounts[account].lamports).remove(account))
    }
}

/// Closes the drained token account `account` on the word of its
/// `authority`: its native balance goes to `destination`, and the address
/// is no longer in use.
pub fn close_account(
    ledger: &mut Ledger,
    account: &Pubkey,
    destination: &Pubkey,
    authority: &Pubkey,
) -> (r: Result<(), LedgerError>)
    ensures
        ledger_step(
            old(ledger)@,
            final(ledger)@,
            r,
            close_account_spec(old(ledger)@, *account, *destination, *authority),
        ),
{
    if *account == *destination {
        return Err(LedgerError::InvalidAccountData);
    }
    let found = match ledger.get(account) {
        Some(found) => found,
        None => {
            return Err(LedgerError::AccountNotFound);
        },
    };
    let token = match found.data {
        AccountData::Token(t) => t,
        _ => {
            return Err(LedgerError::InvalidAccountData);
        },
    };
    if token.amount != 0 {
        return Err(LedgerError::NonZeroBalance);
    }
    if token.authority != *authority {
        return Err(LedgerError::OwnerMismatch);
    }
    let held = match ledger.get(destination) {
        Some(account) => account.lamports,
        None => 0,
    };
    if held > u64::MAX - found.lamports {
        return Err(LedgerError::BalanceOverflow);
    }
    crate::utils::credit(ledger, destination, found.lamports);
    ledger.remove(account);
    Ok(())
}

} // verus!
