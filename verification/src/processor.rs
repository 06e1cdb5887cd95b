//! The three instructions. Each one checks its accounts, changes the order
//! record and moves the assets, in a fixed order of steps; the first step
//! that fails gives the error, and the ledger is then left as it was.

use vstd::prelude::*;
use crate::context::{CancelOrder, Context, ExecuteOrder};
use crate::error::{ErrorCode, InstructionError, LedgerError};
use crate::ledger::{Account, AccountData, Ledger};
use crate::pubkey::Pubkey;
use crate::state::{Order, OrderStatus};
use crate::token::{is_token, token_of};

pub mod cancel_order;
pub mod create_order;
pub mod execute_order;

verus! {

/// The outcome of a ledger operation as the outcome of an instruction step.
pub open spec fn lift(r: Result<Map<Pubkey, Account>, LedgerError>) -> Result<
    Map<Pubkey, Account>,
    InstructionError,
> {
    match r {
        Ok(accounts) => Ok(accounts),
        Err(e) => Err(InstructionError::Ledger(e)),
    }
}

/// How an instruction ended: with the accounts that the model gives, or with
/// its error and the accounts untouched.
pub open spec fn instruction_step(
    before: Map<Pubkey, Account>,
    after: Map<Pubkey, Account>,
    r: Result<(), InstructionError>,
    model: Result<Map<Pubkey, Account>, InstructionError>,
) -> bool {
    match model {
        Ok(accounts) => r is Ok && after == accounts,
        Err(e) => r == Err::<(), InstructionError>(e) && after == before,
    }
}

/// Whether an order record stands under the address.
pub open spec fn is_order(accounts: Map<Pubkey, Account>, key: Pubkey) -> bool {
    accounts.contains_key(key) && accounts[key].data is Order
}

/// Whether an order record of the program `program_id` stands under the
/// address: a record in an account that the program owns. A record in an
/// account of another owner is none that the program wrote.
pub open spec fn is_order_of(accounts: Map<Pubkey, Account>, key: Pubkey, program_id: Pubkey) -> bool {
    is_order(accounts, key) && accounts[key].owner == program_id
}

/// The order record under the address; meaningful only where `is_order`
/// holds.
pub open spec fn order_of(accounts: Map<Pubkey, Account>, key: Pubkey) -> Order {
    match accounts[key].data {
        AccountData::Order(order) => order,
        _ => arbitrary(),
    }
}

/// The order record under `key`, if one stands there.
pub(crate) fn load_order(ledger: &Ledger, key: &Pubkey) -> (r: Option<Order>)
    ensures
        r == (if is_order(ledger@, *key) {
            Some(order_of(ledger@, *key))
        } else {
            None
        }),
{
    match ledger.get(key) {
        Some(account) => match account.data {
            AccountData::Order(order) => Some(order),
            _ => None,
        },
        None => None,
    }
}

/// The accounts with `order` written into the account under `key`.
pub open spec fn with_order(accounts: Map<Pubkey, Account>, key: Pubkey, order: Order) -> Map<
    Pubkey,
    Account,
>
    recommends
        accounts.contains_key(key),
{
    accounts.insert(key, Account { data: AccountData::Order(order), ..accounts[key] })
}

/// The custody rule for the order under `key`: as long as its status is
/// `Created`, its escrow stands in the ledger, apart from the record itself,
/// and holds the base amount. For the native asset the escrow is a bare
/// balance holder with at least the base amount; otherwise it is a token
/// account of the base asset, its own authority, with exactly the base
/// amount.
pub open spec fn escrow_in_custody(accounts: Map<Pubkey, Account>, key: Pubkey) -> bool {
    &&& is_order(accounts, key)
    &&& order_of(accounts, key).status == OrderStatus::Created ==> {
        let order = order_of(accounts, key);
        &&& order.escrow != key
        &&& accounts.contains_key(order.escrow)
        &&& if order.spec_is_base_native() {
            &&& accounts[order.escrow].data == AccountData::Empty
            &&& accounts[order.escrow].lamports >= order.base_amount
        } else {
            &&& is_token(accounts, order.escrow)
            &&& token_of(accounts, order.escrow).amount == order.base_amount
            &&& token_of(accounts, order.escrow).mint == order.base_mint
            &&& token_of(accounts, order.escrow).authority == order.escrow
        }
    }
}

/// Whether the account under `key` is the same before and after, or absent
/// both times.
pub open spec fn untouched(
    before: Map<Pubkey, Account>,
    after: Map<Pubkey, Account>,
    key: Pubkey,
) -> bool {
    &&& after.contains_key(key) == before.contains_key(key)
    &&& before.contains_key(key) ==> after[key] == before[key]
}

/// The custody rule of an order is a matter of its record and its escrow
/// alone: what leaves both untouched keeps the rule.
pub proof fn lemma_custody_is_kept(
    before: Map<Pubkey, Account>,
    after: Map<Pubkey, Account>,
    key: Pubkey,
)
    requires
        escrow_in_custody(before, key),
        untouched(before, after, key),
        untouched(before, after, order_of(before, key).escrow),
    ensures
        escrow_in_custody(after, key),
{
}

/// `amount` where the condition holds, nothing where it does not.
pub open spec fn given(condition: bool, amount: int) -> int {
    if condition {
        amount
    } else {
        0
    }
}

/// The tokens in the account under the address; nothing where no token
/// account stands.
pub open spec fn tokens(accounts: Map<Pubkey, Account>, key: Pubkey) -> nat {
    if is_token(accounts, key) {
        token_of(accounts, key).amount as nat
    } else {
        0
    }
}

/// Whether the outcome of an instruction is a refusal, and the refusal
/// `InvalidOrderStatus` where the accounts fit the record.
pub open spec fn refused_for_status(
    outcome: Result<Map<Pubkey, Account>, InstructionError>,
    accounts_fit: bool,
) -> bool {
    &&& outcome is Err
    &&& accounts_fit ==> outcome == Err::<Map<Pubkey, Account>, InstructionError>(
        InstructionError::Program(ErrorCode::InvalidOrderStatus),
    )
}

/// A canceled order stays canceled: after a cancellation that succeeds,
/// every further cancellation and every execution of the same order is
/// refused, whoever asks and whenever.
pub proof fn lemma_canceled_is_final(
    first: CancelOrder,
    accounts: Map<Pubkey, Account>,
    ctx: Context,
    escrow_bump: u8,
    cancel: CancelOrder,
    execute: ExecuteOrder,
    later: Context,
    bump: u8,
)
    requires
        escrow_in_custody(accounts, first.order),
        first.process_spec(accounts, ctx, escrow_bump) is Ok,
        cancel.order == first.order,
        execute.order == first.order,
    ensures
        ({
            let after = first.process_spec(accounts, ctx, escrow_bump)->Ok_0;
            &&& order_of(accounts, first.order).status.can_become(
                order_of(after, first.order).status,
            )
            &&& order_of(after, first.order).status == OrderStatus::Canceled
            &&& refused_for_status(
                cancel.process_spec(after, later, bump),
                cancel.accounts_error(after, later, bump) is None,
            )
            &&& refused_for_status(
                execute.process_spec(after, later, bump),
                execute.accounts_error(after, later, bump) is None,
            )
        }),
{
    let after = first.process_spec(accounts, ctx, escrow_bump)->Ok_0;
    cancel_order::lemma_cancel_order(first, accounts, ctx, escrow_bump);
    cancel_order::lemma_cancel_needs_created(cancel, after, later, bump);
    execute_order::lemma_execute_needs_created(execute, after, later, bump);
}

/// A completed order stays completed: after an execution that succeeds,
/// every further execution and every cancellation of the same order is
/// refused, whoever asks and whenever. So of a cancellation and an
/// execution that compete for one order, whichever comes second fails.
pub proof fn lemma_completed_is_final(
    first: ExecuteOrder,
    accounts: Map<Pubkey, Account>,
    ctx: Context,
    escrow_bump: u8,
    cancel: CancelOrder,
    execute: ExecuteOrder,
    later: Context,
    bump: u8,
)
    requires
        escrow_in_custody(accounts, first.order),
        first.process_spec(accounts, ctx, escrow_bump) is Ok,
        cancel.order == first.order,
        execute.order == first.order,
    ensures
        ({
            let after = first.process_spec(accounts, ctx, escrow_bump)->Ok_0;
            &&& order_of(accounts, first.order).status.can_become(
                order_of(after, first.order).status,
            )
            &&& order_of(after, first.order).status == OrderStatus::Completed
            &&& refused_for_status(
                cancel.process_spec(after, later, bump),
                cancel.accounts_error(after, later, bump) is None,
            )
            &&& refused_for_status(
                execute.process_spec(after, later, bump),
                execute.accounts_error(after, later, bump) is None,
            )
        }),
{
    let after = first.process_spec(accounts, ctx, escrow_bump)->Ok_0;
    execute_order::lemma_execute_order(first, accounts, ctx, escrow_bump);
    cancel_order::lemma_cancel_needs_created(cancel, after, later, bump);
    execute_order::lemma_execute_needs_created(execute, after, later, bump);
}

} // verus!
