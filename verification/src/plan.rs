//! The steps that an instruction takes on the ledger, one by one. A ledger
//! that is not this library's own carries the same steps out by its own
//! means.

use vstd::prelude::*;
use crate::error::LedgerError;
use crate::ledger::{Account, AccountData, Ledger};
use crate::processor::with_order;
use crate::pubkey::Pubkey;
use crate::state::Order;
use crate::token;
use crate::utils;
use crate::utils::ledger_step;

verus! {

/// One step on the ledger.
#[derive(Clone, Copy, Debug, PartialEq, Eq)]
pub enum Step {
    /// The system program opens `to` for `owner`, and `from` pays.
    CreateAccount { from: Pubkey, to: Pubkey, lamports: u64, space: usize, owner: Pubkey },
    /// The system program moves the native asset between wallets.
    SystemTransfer { from: Pubkey, to: Pubkey, lamports: u64 },
    /// The program adjusts two native balances.
    MoveLamports { src: Pubkey, dst: Pubkey, lamports: u64 },
    /// The program deletes an account of its own.
    DeleteAccount { target: Pubkey, receiver: Pubkey },
    /// The token sub-system initializes a token account.
    InitializeAccount { account: Pubkey, mint: Pubkey, authority: Pubkey },
    /// The token sub-system moves tokens.
    TokenTransfer { from: Pubkey, to: Pubkey, authority: Pubkey, amount: u64 },
    /// The token sub-system closes a token account.
    CloseAccount { account: Pubkey, destination: Pubkey, authority: Pubkey },
    /// The program writes an order record into its account.
    StoreOrder { account: Pubkey, order: Order },
}

/// What writing an order record does to the accounts: the account must
/// stand in the ledger; its contents become the record.
pub open spec fn store_order_spec(
    accounts: Map<Pubkey, Account>,
    account: Pubkey,
    order: Order,
) -> Result<Map<Pubkey, Account>, LedgerError> {
    if !accounts.contains_key(account) {
        Err(LedgerError::AccountNotFound)
    } else {
        Ok(with_order(accounts, account, order))
    }
}

/// Writes an order record into the account that stands under `account`.
pub fn store_order(ledger: &mut Ledger, account: &Pubkey, order: &Order) -> (r: Result<
    (),
    LedgerError,
>)
    ensures
        ledger_step(
            old(ledger)@,
            final(ledger)@,
            r,
            store_order_spec(old(ledger)@, *account, *order),
        ),
{
    match ledger.get(account) {
        Some(found) => {
            ledger.set(*account, Account { data: AccountData::Order(*order), ..found });
            Ok(())
        },
        None => Err(LedgerError::AccountNotFound),
    }
}

impl Step {
    /// What the step does to the accounts, or why the ledger refuses it.
    pub open spec fn spec_apply(self, accounts: Map<Pubkey, Account>) -> Result<
        Map<Pubkey, Account>,
        LedgerError,
    > {
        match self {
            Step::CreateAccount { from, to, lamports, space, owner } => {
                utils::sys_create_account_spec(accounts, from, to, lamports, space as u64, owner)
            },
            Step::SystemTransfer { from, to, lamports } => utils::sys_transfer_spec(
                accounts,
                from,
                to,
                lamports,
            ),
            Step::MoveLamports { src, dst, lamports } => utils::move_lamports_spec(
                accounts,
                src,
                dst,
                lamports,
            ),
            Step::DeleteAccount { target, receiver } => utils::delete_account_spec(
                accounts,
                target,
                receiver,
            ),
            Step::InitializeAccount { account, mint, authority } => {
                token::initialize_account_spec(accounts, account, mint, authority)
            },
            Step::TokenTransfer { from, to, authority, amount } => token::transfer_spec(
                accounts,
                from,
                to,
                authority,
                amount,
            ),
            Step::CloseAccount { account, destination, authority } => token::close_account_spec(
                accounts,
                account,
                destination,
                authority,
            ),
            Step::StoreOrder { account, order } => store_order_spec(accounts, account, order),
        }
    }

    /// Takes the step on the ledger. A step that is refused changes nothing.
    pub fn apply(&self, ledger: &mut Ledger) -> (r: Result<(), LedgerError>)
        ensures
            ledger_step(old(ledger)@, final(ledger)@, r, self.spec_apply(old(ledger)@)),
    {
        match self {
            Step::CreateAccount { from, to, lamports, space, owner } => utils::sys_create_account(
                ledger,
                from,
                to,
                *lamports,
                *space,
                owner,
            ),
            Step::SystemTransfer { from, to, lamports } => utils::sys_transfer(
                ledger,
                from,
                to,
                *lamports,
            ),
            Step::MoveLamports { src, dst, lamports } => utils::move_lamports(
                ledger,
                src,
                dst,
                *lamports,
            ),
            Step::DeleteAccount { target, receiver } => utils::delete_account(
                ledger,
                target,
                receiver,
            ),
            Step::InitializeAccount { account, mint, authority } => token::initialize_account(
                ledger,
                account,
                mint,
                authority,
            ),
            Step::TokenTransfer { from, to, authority, amount } => token::transfer(
                ledger,
                from,
                to,
                authority,
                *amount,
            ),
            Step::CloseAccount { account, destination, authority } => token::close_account(
                ledger,
                account,
                destination,
                authority,
            ),
            Step::StoreOrder { account, order } => store_order(ledger, account, order),
        }
    }
}

/// What the steps from the place `at` on do to the accounts, taken one after
/// the other, or why the first of them that is refused is refused.
pub open spec fn carry_out_from(accounts: Map<Pubkey, Account>, steps: Seq<Step>, at: int) -> Result<
    Map<Pubkey, Account>,
    LedgerError,
>
    decreases steps.len() - at,
{
    if at < 0 || at >= steps.len() {
        Ok(accounts)
    } else {
        match steps[at].spec_apply(accounts) {
            Err(e) => Err(e),
            Ok(next) => carry_out_from(next, steps, at + 1),
        }
    }
}

/// What the steps do to the accounts, taken one after the other.
pub open spec fn carry_out(accounts: Map<Pubkey, Account>, steps: Seq<Step>) -> Result<
    Map<Pubkey, Account>,
    LedgerError,
> {
    carry_out_from(accounts, steps, 0)
}

} // verus!
