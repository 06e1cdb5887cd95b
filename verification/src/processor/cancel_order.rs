//! Canceling an order: the funder takes the escrowed base amount back, and
//! the escrow is closed.

use vstd::prelude::*;
use crate::context::{CancelOrder, Context};
use crate::error::{ErrorCode, InstructionError, LedgerError};
use crate::ledger::{Account, AccountData, Ledger};
use crate::plan::{carry_out, carry_out_from, Step};
use crate::processor::{
    escrow_in_custody, is_order_of, instruction_step, is_order, lift, order_of, tokens, untouched, with_order,
};
use crate::pubkey::Pubkey;
use crate::state::{Order, OrderStatus};
use crate::token;
use crate::utils;

verus! {

impl CancelOrder {
    /// Why the accounts handed in do not fit the order record, if they do
    /// not: the order account must hold a record of this program that names
    /// this funder and
    /// this escrow, and the escrow must be the derived address, which
    /// `escrow_is_derived` says.
    pub open spec fn accounts_error_with(
        self,
        accounts: Map<Pubkey, Account>,
        ctx: Context,
        escrow_is_derived: bool,
    ) -> Option<InstructionError> {
        if !is_order_of(accounts, self.order, ctx.program_id) {
            Some(InstructionError::OrderNotFound)
        } else if order_of(accounts, self.order).funder != self.funder || order_of(
            accounts,
            self.order,
        ).escrow != self.escrow {
            Some(InstructionError::AccountMismatch)
        } else if !escrow_is_derived {
            Some(InstructionError::EscrowMismatch)
        } else {
            None
        }
    }

    /// Why the accounts handed in do not fit the order record, if they do
    /// not, where the escrow is held against the address derived with
    /// `escrow_bump`.
    pub open spec fn accounts_error(
        self,
        accounts: Map<Pubkey, Account>,
        ctx: Context,
        escrow_bump: u8,
    ) -> Option<InstructionError> {
        self.accounts_error_with(
            accounts,
            ctx,
            utils::spec_is_order_escrow(
                self.escrow,
                self.funder,
                self.order,
                escrow_bump,
                ctx.program_id,
            ),
        )
    }

    /// Emptying and closing the escrow. For the native asset the receiving
    /// account must be the funder's own wallet, and the escrow's whole
    /// balance goes to the funder. Otherwise all tokens of the escrow go to
    /// the funder's token account, and the closed escrow's native balance to
    /// the funder.
    pub open spec fn refund_spec(self, accounts: Map<Pubkey, Account>, order: Order) -> Result<
        Map<Pubkey, Account>,
        InstructionError,
    > {
        if order.spec_is_base_native() {
            if self.funder_token_account != self.funder {
                Err(InstructionError::Program(ErrorCode::FunderAccountWalletMismatch))
            } else {
                lift(utils::delete_account_spec(accounts, self.escrow, self.funder))
            }
        } else if !accounts.contains_key(self.escrow) {
            Err(InstructionError::Ledger(LedgerError::AccountNotFound))
        } else if !token::is_token(accounts, self.escrow) {
            Err(InstructionError::Ledger(LedgerError::InvalidAccountData))
        } else {
            match token::transfer_spec(
                accounts,
                self.escrow,
                self.funder_token_account,
                self.escrow,
                token::token_of(accounts, self.escrow).amount,
            ) {
                Err(e) => Err(InstructionError::Ledger(e)),
                Ok(returned) => lift(
                    token::close_account_spec(returned, self.escrow, self.funder, self.escrow),
                ),
            }
        }
    }

    /// What canceling an order does to the accounts, or why it is refused,
    /// where `escrow_is_derived` says whether the escrow is the derived
    /// address. The steps, in their order: the accounts must fit the record;
    /// the order must be in the state `Created`; it becomes `Canceled`; the
    /// escrow is emptied and closed.
    pub open spec fn process_spec_with(
        self,
        accounts: Map<Pubkey, Account>,
        ctx: Context,
        escrow_is_derived: bool,
    ) -> Result<Map<Pubkey, Account>, InstructionError> {
        match self.accounts_error_with(accounts, ctx, escrow_is_derived) {
            Some(e) => Err(e),
            None => {
                let order = order_of(accounts, self.order);
                if order.status != OrderStatus::Created {
                    Err(InstructionError::Program(ErrorCode::InvalidOrderStatus))
                } else {
                    self.refund_spec(
                        with_order(
                            accounts,
                            self.order,
                            Order { status: OrderStatus::Canceled, ..order },
                        ),
                        order,
                    )
                }
            },
        }
    }

    /// What canceling an order does to the accounts, or why it is refused:
    /// the escrow is held against the address derived with `escrow_bump`.
    pub open spec fn process_spec(
        self,
        accounts: Map<Pubkey, Account>,
        ctx: Context,
        escrow_bump: u8,
    ) -> Result<Map<Pubkey, Account>, InstructionError> {
        self.process_spec_with(
            accounts,
            ctx,
            utils::spec_is_order_escrow(
                self.escrow,
                self.funder,
                self.order,
                escrow_bump,
                ctx.program_id,
            ),
        )
    }

    fn refund(&self, ledger: &mut Ledger, order: &Order) -> (r: Result<(), InstructionError>)
        ensures
            match self.refund_spec(old(ledger)@, *order) {
                Ok(accounts) => r is Ok && final(ledger)@ == accounts,
                Err(e) => r == Err::<(), InstructionError>(e),
            },
    {
        if order.is_base_native() {
            if self.funder_token_account != self.funder {
                return Err(InstructionError::Program(ErrorCode::FunderAccountWalletMismatch));
            }
            if let Err(e) = utils::delete_account(ledger, &self.escrow, &self.funder) {
                return Err(InstructionError::Ledger(e));
            }
        } else {
            let escrow = match ledger.get(&self.escrow) {
                Some(account) => account,
                None => {
                    return Err(InstructionError::Ledger(LedgerError::AccountNotFound));
                },
            };
            let held = match escrow.data {
                AccountData::Token(t) => t.amount,
                _ => {
                    return Err(InstructionError::Ledger(LedgerError::InvalidAccountData));
                },
            };
            if let Err(e) = token::transfer(
                ledger,
                &self.escrow,
                &self.funder_token_account,
                &self.escrow,
                held,
            ) {
                return Err(InstructionError::Ledger(e));
            }
            if let Err(e) = token::close_account(ledger, &self.escrow, &self.funder, &self.escrow) {
                return Err(InstructionError::Ledger(e));
            }
        }
        Ok(())
    }

    fn apply(&self, ledger: &mut Ledger, ctx: &Context, escrow_is_derived: bool) -> (r: Result<
        (),
        InstructionError,
    >)
        ensures
            match self.process_spec_with(old(ledger)@, *ctx, escrow_is_derived) {
                Ok(accounts) => r is Ok && final(ledger)@ == accounts,
                Err(e) => r == Err::<(), InstructionError>(e),
            },
    {
        let account = match ledger.get(&self.order) {
            Some(account) => account,
            None => {
                return Err(InstructionError::OrderNotFound);
            },
        };
        let order = match account.data {
            AccountData::Order(order) => order,
            _ => {
                return Err(InstructionError::OrderNotFound);
            },
        };
        if account.owner != ctx.program_id {
            return Err(InstructionError::OrderNotFound);
        }
        if order.funder != self.funder || order.escrow != self.escrow {
            return Err(InstructionError::AccountMismatch);
        }
        if !escrow_is_derived {
            return Err(InstructionError::EscrowMismatch);
        }
        match order.status {
            OrderStatus::Created => {},
            _ => {
                return Err(InstructionError::Program(ErrorCode::InvalidOrderStatus));
            },
        }
        let canceled = Order { status: OrderStatus::Canceled, ..order };
        ledger.set(self.order, Account { data: AccountData::Order(canceled), ..account });
        self.refund(ledger, &order)
    }

    /// The steps of a cancellation that succeeds: the record is written
    /// with the status `Canceled`; the native escrow is deleted, or the
    /// token escrow emptied and closed.
    pub open spec fn plan_spec(self, accounts: Map<Pubkey, Account>) -> Seq<Step> {
        let order = order_of(accounts, self.order);
        let store = Step::StoreOrder {
            account: self.order,
            order: Order { status: OrderStatus::Canceled, ..order },
        };
        if order.spec_is_base_native() {
            seq![store, Step::DeleteAccount { target: self.escrow, receiver: self.funder }]
        } else {
            seq![
                store,
                Step::TokenTransfer {
                    from: self.escrow,
                    to: self.funder_token_account,
                    authority: self.escrow,
                    amount: token::token_of(accounts, self.escrow).amount,
                },
                Step::CloseAccount {
                    account: self.escrow,
                    destination: self.funder,
                    authority: self.escrow,
                },
            ]
        }
    }

    /// The steps by which the order is canceled on the ledger as it stands,
    /// or the reason why it cannot be. The ledger is not changed.
    pub fn plan(&self, ledger: &Ledger, ctx: &Context, escrow_bump: u8) -> (r: Result<
        Vec<Step>,
        InstructionError,
    >)
        ensures
            match self.process_spec(ledger@, *ctx, escrow_bump) {
                Ok(_) => r is Ok && r->Ok_0@ == self.plan_spec(ledger@),
                Err(e) => r == Err::<Vec<Step>, InstructionError>(e),
            },
    {
        let escrow_is_derived = utils::is_order_escrow(
            &self.escrow,
            &self.funder,
            &self.order,
            escrow_bump,
            &ctx.program_id,
        );
        let mut work = ledger.snapshot();
        self.apply(&mut work, ctx, escrow_is_derived)?;
        let mut steps: Vec<Step> = Vec::new();
        if let Some(order) = crate::processor::load_order(ledger, &self.order) {
            steps.push(
                Step::StoreOrder {
                    account: self.order,
                    order: Order { status: OrderStatus::Canceled, ..order },
                },
            );
            if order.is_base_native() {
                steps.push(Step::DeleteAccount { target: self.escrow, receiver: self.funder });
            } else if let Some(escrow) = ledger.get(&self.escrow) {
                if let AccountData::Token(held) = escrow.data {
                    steps.push(
                        Step::TokenTransfer {
                            from: self.escrow,
                            to: self.funder_token_account,
                            authority: self.escrow,
                            amount: held.amount,
                        },
                    );
                    steps.push(
                        Step::CloseAccount {
                            account: self.escrow,
                            destination: self.funder,
                            authority: self.escrow,
                        },
                    );
                }
            }
        }
        assert(steps@ =~= self.plan_spec(ledger@));
        Ok(steps)
    }

    /// Cancels the order, where `escrow_is_derived` says whether
    /// `self.escrow` is the address derived from the funder, the order and
    /// the bump: the status becomes `Canceled`, the escrowed base amount
    /// returns to the funder, and the escrow is closed. On any error the
    /// ledger is left as it was.
    pub fn process_with(&self, ledger: &mut Ledger, ctx: &Context, escrow_is_derived: bool) -> (r:
        Result<(), InstructionError>)
        ensures
            instruction_step(
                old(ledger)@,
                final(ledger)@,
                r,
                self.process_spec_with(old(ledger)@, *ctx, escrow_is_derived),
            ),
    {
        let mut work = ledger.snapshot();
        match self.apply(&mut work, ctx, escrow_is_derived) {
            Ok(()) => {
                *ledger = work;
                Ok(())
            },
            Err(e) => Err(e),
        }
    }

    /// Cancels the order: holds `self.escrow` against the address derived
    /// with `escrow_bump`; the status becomes `Canceled`, the escrowed base
    /// amount returns to the funder, and the escrow is closed. On any error
    /// the ledger is left as it was.
    pub fn process(&self, ledger: &mut Ledger, ctx: &Context, escrow_bump: u8) -> (r: Result<
        (),
        InstructionError,
    >)
        ensures
            instruction_step(
                old(ledger)@,
                final(ledger)@,
                r,
                self.process_spec(old(ledger)@, *ctx, escrow_bump),
            ),
    {
        let escrow_is_derived = utils::is_order_escrow(
            &self.escrow,
            &self.funder,
            &self.order,
            escrow_bump,
            &ctx.program_id,
        );
        self.process_with(ledger, ctx, escrow_is_derived)
    }
}

/// What holds after every cancellation that succeeds, of an order under the
/// custody rule. The order was in the state `Created` and is now `Canceled`,
/// with nothing else of the record changed. The escrow is gone. The funder's
/// native balance has grown by the escrow's whole native balance, which for
/// the native asset is at least the base amount; for a token asset the
/// funder's token account has gained exactly the base amount. No other
/// native balance and no other token account has changed.
pub proof fn lemma_cancel_order(
    a: CancelOrder,
    accounts: Map<Pubkey, Account>,
    ctx: Context,
    escrow_bump: u8,
)
    requires
        escrow_in_custody(accounts, a.order),
        a.process_spec(accounts, ctx, escrow_bump) is Ok,
    ensures
        ({
            let after = a.process_spec(accounts, ctx, escrow_bump)->Ok_0;
            let order = order_of(accounts, a.order);
            &&& order.status == OrderStatus::Created
            &&& order.funder == a.funder
            &&& order.escrow == a.escrow
            &&& utils::spec_is_order_escrow(a.escrow, a.funder, a.order, escrow_bump, ctx.program_id)
            &&& is_order(after, a.order)
            &&& order_of(after, a.order) == (Order { status: OrderStatus::Canceled, ..order })
            &&& !after.contains_key(a.escrow)
            &&& a.funder != a.escrow
            &&& utils::balance(after, a.funder) == utils::balance(accounts, a.funder)
                + accounts[a.escrow].lamports
            &&& order.spec_is_base_native() ==> {
                &&& a.funder_token_account == a.funder
                &&& utils::balance(after, a.funder) >= utils::balance(accounts, a.funder)
                    + order.base_amount
            }
            &&& !order.spec_is_base_native() ==> tokens(after, a.funder_token_account) == tokens(
                accounts,
                a.funder_token_account,
            ) + order.base_amount
            &&& forall|k: Pubkey|
                k != a.escrow && k != a.funder ==> #[trigger] utils::balance(after, k)
                    == utils::balance(accounts, k)
            &&& forall|k: Pubkey|
                k != a.escrow && k != a.funder_token_account ==> #[trigger] tokens(after, k)
                    == tokens(accounts, k)
        }),
{
}

/// A cancellation changes no account but the four that it names: the order,
/// the funder, the receiving account and the escrow.
pub proof fn lemma_cancel_order_frame(
    a: CancelOrder,
    accounts: Map<Pubkey, Account>,
    ctx: Context,
    escrow_bump: u8,
)
    requires
        a.process_spec(accounts, ctx, escrow_bump) is Ok,
    ensures
        forall|k: Pubkey|
            k != a.order && k != a.funder && k != a.funder_token_account && k != a.escrow
                ==> #[trigger] untouched(
                accounts,
                a.process_spec(accounts, ctx, escrow_bump)->Ok_0,
                k,
            ),
{
}

/// An order that is not in the state `Created` cannot be canceled: the
/// instruction fails whatever accounts, bump and readings it is handed, and
/// with `InvalidOrderStatus` where the accounts fit the record.
pub proof fn lemma_cancel_needs_created(
    a: CancelOrder,
    accounts: Map<Pubkey, Account>,
    ctx: Context,
    escrow_bump: u8,
)
    requires
        is_order(accounts, a.order),
        order_of(accounts, a.order).status != OrderStatus::Created,
    ensures
        a.process_spec(accounts, ctx, escrow_bump) is Err,
        a.accounts_error(accounts, ctx, escrow_bump) is None ==> a.process_spec(
            accounts,
            ctx,
            escrow_bump,
        ) == Err::<Map<Pubkey, Account>, InstructionError>(
            InstructionError::Program(ErrorCode::InvalidOrderStatus),
        ),
{
}

/// The steps of a cancellation that succeeds, taken one after the other, do
/// to the accounts what the cancellation does.
pub proof fn lemma_cancel_order_plan(
    a: CancelOrder,
    accounts: Map<Pubkey, Account>,
    ctx: Context,
    escrow_bump: u8,
)
    requires
        a.process_spec(accounts, ctx, escrow_bump) is Ok,
    ensures
        lift(carry_out(accounts, a.plan_spec(accounts))) == a.process_spec(
            accounts,
            ctx,
            escrow_bump,
        ),
{
    reveal_with_fuel(carry_out_from, 5);
}

} // verus!
