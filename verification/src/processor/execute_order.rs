//! Executing an order: the recipient pays the quote amount to the funder and
//! takes the escrowed base amount, and the escrow is closed.

use vstd::prelude::*;
use crate::clock::{check_execute_window, execute_window_error};
use crate::context::{Context, ExecuteOrder};
use crate::error::{ErrorCode, InstructionError};
use crate::ledger::{Account, AccountData, Ledger};
use crate::plan::{carry_out, carry_out_from, Step};
use crate::processor::{
    escrow_in_custody, is_order_of, given, instruction_step, is_order, lift, order_of, tokens, untouched,
    with_order,
};
use crate::pubkey::Pubkey;
use crate::state::{Order, OrderStatus};
use crate::token;
use crate::utils;

verus! {

impl ExecuteOrder {
    /// Why the accounts handed in do not fit the order record, if they do
    /// not: the order account must hold a record of this program that names
    /// this recipient,
    /// this escrow, this quote account and this funder, and the escrow must
    /// be the derived address, which `escrow_is_derived` says.
    pub open spec fn accounts_error_with(
        self,
        accounts: Map<Pubkey, Account>,
        ctx: Context,
        escrow_is_derived: bool,
    ) -> Option<InstructionError> {
        if !is_order_of(accounts, self.order, ctx.program_id) {
            Some(InstructionError::OrderNotFound)
        } else if order_of(accounts, self.order).recipient != self.recipient || order_of(
            accounts,
            self.order,
        ).escrow != self.escrow || order_of(accounts, self.order).quote_token_account
            != self.quote_token_account || order_of(accounts, self.order).funder != self.funder {
            Some(InstructionError::AccountMismatch)
        } else if !escrow_is_derived {
            Some(InstructionError::EscrowMismatch)
        } else {
            None
        }
    }

    /// Why the accounts handed in do not fit the order record, if they do
    /// not, where the escrow is held against the address derived with
    /// `escrow_bump`.
    pub open spec fn accounts_error(
        self,
        accounts: Map<Pubkey, Account>,
        ctx: Context,
        escrow_bump: u8,
    ) -> Option<InstructionError> {
        self.accounts_error_with(
            accounts,
            ctx,
            utils::spec_is_order_escrow(
                self.escrow,
                self.funder,
                self.order,
                escrow_bump,
                ctx.program_id,
            ),
        )
    }

    /// The quote leg: the recipient pays `quote_amount` to the account that
    /// the order names. For the native asset the paying account must be the
    /// recipient's own wallet.
    pub open spec fn pay_quote_spec(self, accounts: Map<Pubkey, Account>, order: Order) -> Result<
        Map<Pubkey, Account>,
        InstructionError,
    > {
        if order.spec_is_quote_native() {
            if self.recipient_token_account != self.recipient {
                Err(InstructionError::Program(ErrorCode::RecipientAccountWalletMismatch))
            } else {
                lift(
                    utils::sys_transfer_spec(
                        accounts,
                        self.recipient_token_account,
                        self.quote_token_account,
                        order.quote_amount,
                    ),
                )
            }
        } else {
            lift(
                token::transfer_spec(
                    accounts,
                    self.recipient_token_account,
                    self.quote_token_account,
                    self.recipient,
                    order.quote_amount,
                ),
            )
        }
    }

    /// The base leg: `base_amount` leaves the escrow for the recipient's
    /// receiving account. For the native asset that account must be the
    /// recipient's own wallet.
    pub open spec fn release_base_spec(
        self,
        accounts: Map<Pubkey, Account>,
        order: Order,
    ) -> Result<Map<Pubkey, Account>, InstructionError> {
        if order.spec_is_base_native() {
            if self.recipient_receive_token_account != self.recipient {
                Err(InstructionError::Program(ErrorCode::RecipientReceiveAccountWalletMismatch))
            } else {
                lift(
                    utils::move_lamports_spec(
                        accounts,
                        self.escrow,
                        self.recipient_receive_token_account,
                        order.base_amount,
                    ),
                )
            }
        } else {
            lift(
                token::transfer_spec(
                    accounts,
                    self.escrow,
                    self.recipient_receive_token_account,
                    self.escrow,
                    order.base_amount,
                ),
            )
        }
    }

    /// Closing the escrow: what is left of its native balance goes to the
    /// funder.
    pub open spec fn close_escrow_spec(
        self,
        accounts: Map<Pubkey, Account>,
        order: Order,
    ) -> Result<Map<Pubkey, Account>, InstructionError> {
        if order.spec_is_base_native() {
            lift(utils::delete_account_spec(accounts, self.escrow, self.funder))
        } else {
            lift(token::close_account_spec(accounts, self.escrow, self.funder, self.escrow))
        }
    }

    /// The steps of an execution up to the closed escrow, in their order,
    /// where `escrow_is_derived` says whether the escrow is the derived
    /// address: the accounts must fit the record; the order must be in the
    /// state `Created`; it becomes `Completed`; the quote leg; the base leg;
    /// the escrow is closed.
    pub open spec fn settled_spec_with(
        self,
        accounts: Map<Pubkey, Account>,
        ctx: Context,
        escrow_is_derived: bool,
    ) -> Result<Map<Pubkey, Account>, InstructionError> {
        match self.accounts_error_with(accounts, ctx, escrow_is_derived) {
            Some(e) => Err(e),
            None => {
                let order = order_of(accounts, self.order);
                if order.status != OrderStatus::Created {
                    Err(InstructionError::Program(ErrorCode::InvalidOrderStatus))
                } else {
                    match self.pay_quote_spec(
                        with_order(
                            accounts,
                            self.order,
                            Order { status: OrderStatus::Completed, ..order },
                        ),
                        order,
                    ) {
                        Err(e) => Err(e),
                        Ok(paid) => match self.release_base_spec(paid, order) {
                            Err(e) => Err(e),
                            Ok(released) => self.close_escrow_spec(released, order),
                        },
                    }
                }
            },
        }
    }

    /// The steps of an execution up to the closed escrow, where the escrow
    /// is held against the address derived with `escrow_bump`.
    pub open spec fn settled_spec(
        self,
        accounts: Map<Pubkey, Account>,
        ctx: Context,
        escrow_bump: u8,
    ) -> Result<Map<Pubkey, Account>, InstructionError> {
        self.settled_spec_with(
            accounts,
            ctx,
            utils::spec_is_order_escrow(
                self.escrow,
                self.funder,
                self.order,
                escrow_bump,
                ctx.program_id,
            ),
        )
    }

    /// What executing an order does to the accounts, or why it is refused,
    /// where `escrow_is_derived` says whether the escrow is the derived
    /// address. After the steps up to the closed escrow, the current time
    /// must lie in the order's window.
    pub open spec fn process_spec_with(
        self,
        accounts: Map<Pubkey, Account>,
        ctx: Context,
        escrow_is_derived: bool,
    ) -> Result<Map<Pubkey, Account>, InstructionError> {
        match self.settled_spec_with(accounts, ctx, escrow_is_derived) {
            Err(e) => Err(e),
            Ok(settled) => {
                let order = order_of(accounts, self.order);
                match execute_window_error(ctx.unix_timestamp, order.start_date, order.expire_date) {
                    Some(e) => Err(InstructionError::Program(e)),
                    None => Ok(settled),
                }
            },
        }
    }

    /// What executing an order does to the accounts, or why it is refused:
    /// the escrow is held against the address derived with `escrow_bump`.
    pub open spec fn process_spec(
        self,
        accounts: Map<Pubkey, Account>,
        ctx: Context,
        escrow_bump: u8,
    ) -> Result<Map<Pubkey, Account>, InstructionError> {
        self.process_spec_with(
            accounts,
            ctx,
            utils::spec_is_order_escrow(
                self.escrow,
                self.funder,
                self.order,
                escrow_bump,
                ctx.program_id,
            ),
        )
    }

    fn pay_quote(&self, ledger: &mut Ledger, order: &Order) -> (r: Result<(), InstructionError>)
        ensures
            match self.pay_quote_spec(old(ledger)@, *order) {
                Ok(accounts) => r is Ok && final(ledger)@ == accounts,
                Err(e) => r == Err::<(), InstructionError>(e),
            },
    {
        if order.is_quote_native() {
            if self.recipient_token_account != self.recipient {
                return Err(InstructionError::Program(ErrorCode::RecipientAccountWalletMismatch));
            }
            if let Err(e) = utils::sys_transfer(
                ledger,
                &self.recipient_token_account,
                &self.quote_token_account,
                order.quote_amount,
            ) {
                return Err(InstructionError::Ledger(e));
            }
        } else {
            if let Err(e) = token::transfer(
                ledger,
                &self.recipient_token_account,
                &self.quote_token_account,
                &self.recipient,
                order.quote_amount,
            ) {
                return Err(InstructionError::Ledger(e));
            }
        }
        Ok(())
    }

    fn release_base(&self, ledger: &mut Ledger, order: &Order) -> (r: Result<
        (),
        InstructionError,
    >)
        ensures
            match self.release_base_spec(old(ledger)@, *order) {
                Ok(accounts) => r is Ok && final(ledger)@ == accounts,
                Err(e) => r == Err::<(), InstructionError>(e),
            },
    {
        if order.is_base_native() {
            if self.recipient_receive_token_account != self.recipient {
                return Err(
                    InstructionError::Program(ErrorCode::RecipientReceiveAccountWalletMismatch),
                );
            }
            if let Err(e) = utils::move_lamports(
                ledger,
                &self.escrow,
                &self.recipient_receive_token_account,
                order.base_amount,
            ) {
                return Err(InstructionError::Ledger(e));
            }
        } else {
            if let Err(e) = token::transfer(
                ledger,
                &self.escrow,
                &self.recipient_receive_token_account,
                &self.escrow,
                order.base_amount,
            ) {
                return Err(InstructionError::Ledger(e));
            }
        }
        Ok(())
    }

    fn close_escrow(&self, ledger: &mut Ledger, order: &Order) -> (r: Result<
        (),
        InstructionError,
    >)
        ensures
            match self.close_escrow_spec(old(ledger)@, *order) {
                Ok(accounts) => r is Ok && final(ledger)@ == accounts,
                Err(e) => r == Err::<(), InstructionError>(e),
            },
    {
        if order.is_base_native() {
            if let Err(e) = utils::delete_account(ledger, &self.escrow, &self.funder) {
                return Err(InstructionError::Ledger(e));
            }
        } else {
            if let Err(e) = token::close_account(ledger, &self.escrow, &self.funder, &self.escrow) {
                return Err(InstructionError::Ledger(e));
            }
        }
        Ok(())
    }

    fn apply(&self, ledger: &mut Ledger, ctx: &Context, escrow_is_derived: bool) -> (r: Result<
        (),
        InstructionError,
    >)
        ensures
            match self.process_spec_with(old(ledger)@, *ctx, escrow_is_derived) {
                Ok(accounts) => r is Ok && final(ledger)@ == accounts,
                Err(e) => r == Err::<(), InstructionError>(e),
            },
    {
        let account = match ledger.get(&self.order) {
            Some(account) => account,
            None => {
                return Err(InstructionError::OrderNotFound);
            },
        };
        let order = match account.data {
            AccountData::Order(order) => order,
            _ => {
                return Err(InstructionError::OrderNotFound);
            },
        };
        if account.owner != ctx.program_id {
            return Err(InstructionError::OrderNotFound);
        }
        if order.recipient != self.recipient || order.escrow != self.escrow
            || order.quote_token_account != self.quote_token_account || order.funder
            != self.funder {
            return Err(InstructionError::AccountMismatch);
        }
        if !escrow_is_derived {
            return Err(InstructionError::EscrowMismatch);
        }
        match order.status {
            OrderStatus::Created => {},
            _ => {
                return Err(InstructionError::Program(ErrorCode::InvalidOrderStatus));
            },
        }
        let completed = Order { status: OrderStatus::Completed, ..order };
        ledger.set(self.order, Account { data: AccountData::Order(completed), ..account });
        self.pay_quote(ledger, &order)?;
        self.release_base(ledger, &order)?;
        self.close_escrow(ledger, &order)?;
        if let Err(e) = check_execute_window(ctx.unix_timestamp, order.start_date, order.expire_date) {
            return Err(InstructionError::Program(e));
        }
        Ok(())
    }

    /// The step of the quote leg.
    pub open spec fn quote_step(self, order: Order) -> Step {
        if order.spec_is_quote_native() {
            Step::SystemTransfer {
                from: self.recipient_token_account,
                to: self.quote_token_account,
                lamports: order.quote_amount,
            }
        } else {
            Step::TokenTransfer {
                from: self.recipient_token_account,
                to: self.quote_token_account,
                authority: self.recipient,
                amount: order.quote_amount,
            }
        }
    }

    /// The step of the base leg.
    pub open spec fn base_step(self, order: Order) -> Step {
        if order.spec_is_base_native() {
            Step::MoveLamports {
                src: self.escrow,
                dst: self.recipient_receive_token_account,
                lamports: order.base_amount,
            }
        } else {
            Step::TokenTransfer {
                from: self.escrow,
                to: self.recipient_receive_token_account,
                authority: self.escrow,
                amount: order.base_amount,
            }
        }
    }

    /// The step that closes the escrow.
    pub open spec fn close_step(self, order: Order) -> Step {
        if order.spec_is_base_native() {
            Step::DeleteAccount { target: self.escrow, receiver: self.funder }
        } else {
            Step::CloseAccount {
                account: self.escrow,
                destination: self.funder,
                authority: self.escrow,
            }
        }
    }

    /// The steps of an execution that succeeds: the record is written with
    /// the status `Completed`; the quote leg; the base leg; the escrow is
    /// closed.
    pub open spec fn plan_spec(self, accounts: Map<Pubkey, Account>) -> Seq<Step> {
        let order = order_of(accounts, self.order);
        seq![
            Step::StoreOrder {
                account: self.order,
                order: Order { status: OrderStatus::Completed, ..order },
            },
            self.quote_step(order),
            self.base_step(order),
            self.close_step(order),
        ]
    }

    /// The steps by which the order is executed on the ledger as it stands,
    /// or the reason why it cannot be. The ledger is not changed.
    pub fn plan(&self, ledger: &Ledger, ctx: &Context, escrow_bump: u8) -> (r: Result<
        Vec<Step>,
        InstructionError,
    >)
        ensures
            match self.process_spec(ledger@, *ctx, escrow_bump) {
                Ok(_) => r is Ok && r->Ok_0@ == self.plan_spec(ledger@),
                Err(e) => r == Err::<Vec<Step>, InstructionError>(e),
            },
    {
        let escrow_is_derived = utils::is_order_escrow(
            &self.escrow,
            &self.funder,
            &self.order,
            escrow_bump,
            &ctx.program_id,
        );
        let mut work = ledger.snapshot();
        self.apply(&mut work, ctx, escrow_is_derived)?;
        let mut steps: Vec<Step> = Vec::new();
        if let Some(order) = crate::processor::load_order(ledger, &self.order) {
            steps.push(
                Step::StoreOrder {
                    account: self.order,
                    order: Order { status: OrderStatus::Completed, ..order },
                },
            );
            if order.is_quote_native() {
                steps.push(
                    Step::SystemTransfer {
                        from: self.recipient_token_account,
                        to: self.quote_token_account,
                        lamports: order.quote_amount,
                    },
                );
            } else {
                steps.push(
                    Step::TokenTransfer {
                        from: self.recipient_token_account,
                        to: self.quote_token_account,
                        authority: self.recipient,
                        amount: order.quote_amount,
                    },
                );
            }
            if order.is_base_native() {
                steps.push(
                    Step::MoveLamports {
                        src: self.escrow,
                        dst: self.recipient_receive_token_account,
                        lamports: order.base_amount,
                    },
                );
                steps.push(Step::DeleteAccount { target: self.escrow, receiver: self.funder });
            } else {
                steps.push(
                    Step::TokenTransfer {
                        from: self.escrow,
                        to: self.recipient_receive_token_account,
                        authority: self.escrow,
                        amount: order.base_amount,
                    },
                );
                steps.push(
                    Step::CloseAccount {
                        account: self.escrow,
                        destination: self.funder,
                        authority: self.escrow,
                    },
                );
            }
        }
        assert(steps@ =~= self.plan_spec(ledger@));
        Ok(steps)
    }

    /// Executes the order, where `escrow_is_derived` says whether
    /// `self.escrow` is the address derived from the funder, the order and
    /// the bump: the status becomes `Completed`, the quote amount
    /// goes from the recipient to the funder's quote account, the escrowed
    /// base amount to the recipient, and the escrow is closed. On any error
    /// the ledger is left as it was.
    pub fn process_with(&self, ledger: &mut Ledger, ctx: &Context, escrow_is_derived: bool) -> (r:
        Result<(), InstructionError>)
        ensures
            instruction_step(
                old(ledger)@,
                final(ledger)@,
                r,
                self.process_spec_with(old(ledger)@, *ctx, escrow_is_derived),
            ),
    {
        let mut work = ledger.snapshot();
        match self.apply(&mut work, ctx, escrow_is_derived) {
            Ok(()) => {
                *ledger = work;
                Ok(())
            },
            Err(e) => Err(e),
        }
    }

    /// Executes the order: holds `self.escrow` against the address derived
    /// with `escrow_bump`; the status becomes `Completed`, the quote amount
    /// goes from the recipient to the funder's quote account, the escrowed
    /// base amount to the recipient, and the escrow is closed. On any error
    /// the ledger is left as it was.
    pub fn process(&self, ledger: &mut Ledger, ctx: &Context, escrow_bump: u8) -> (r: Result<
        (),
        InstructionError,
    >)
        ensures
            instruction_step(
                old(ledger)@,
                final(ledger)@,
                r,
                self.process_spec(old(ledger)@, *ctx, escrow_bump),
            ),
    {
        let escrow_is_derived = utils::is_order_escrow(
            &self.escrow,
            &self.funder,
            &self.order,
            escrow_bump,
            &ctx.program_id,
        );
        self.process_with(ledger, ctx, escrow_is_derived)
    }
}

/// What holds after every execution that succeeds, of an order under the
/// custody rule. The order was in the state `Created` and is now
/// `Completed`, with nothing else of the record changed; the current time
/// lies in its window. The escrow is gone. Every other native balance has
/// changed by what the legs moved: the quote amount from the recipient to
/// the quote account, where the quote asset is native; the base amount to
/// the recipient, where the base asset is native; and to the funder what was
/// left in the escrow. Every other token account has changed by what the
/// legs moved in tokens.
#[verifier::rlimit(50)]
#[verifier::spinoff_prover]
pub proof fn lemma_execute_order(
    a: ExecuteOrder,
    accounts: Map<Pubkey, Account>,
    ctx: Context,
    escrow_bump: u8,
)
    requires
        escrow_in_custody(accounts, a.order),
        a.process_spec(accounts, ctx, escrow_bump) is Ok,
    ensures
        ({
            let after = a.process_spec(accounts, ctx, escrow_bump)->Ok_0;
            let order = order_of(accounts, a.order);
            let quote_native = order.spec_is_quote_native();
            let base_native = order.spec_is_base_native();
            let left = accounts[a.escrow].lamports + given(
                quote_native && a.quote_token_account == a.escrow,
                order.quote_amount as int,
            ) - given(base_native, order.base_amount as int);
            &&& order.status == OrderStatus::Created
            &&& order.funder == a.funder
            &&& order.recipient == a.recipient
            &&& order.escrow == a.escrow
            &&& order.quote_token_account == a.quote_token_account
            &&& utils::spec_is_order_escrow(a.escrow, a.funder, a.order, escrow_bump, ctx.program_id)
            &&& execute_window_error(ctx.unix_timestamp, order.start_date, order.expire_date)
                is None
            &&& is_order(after, a.order)
            &&& order_of(after, a.order) == (Order { status: OrderStatus::Completed, ..order })
            &&& !after.contains_key(a.escrow)
            &&& quote_native ==> a.recipient_token_account == a.recipient
            &&& base_native ==> a.recipient_receive_token_account == a.recipient
            &&& left >= 0
            &&& forall|k: Pubkey|
                k != a.escrow ==> #[trigger] utils::balance(after, k) == utils::balance(accounts, k)
                    + given(quote_native && k == a.quote_token_account, order.quote_amount as int)
                    - given(quote_native && k == a.recipient, order.quote_amount as int) + given(
                    base_native && k == a.recipient,
                    order.base_amount as int,
                ) + given(k == a.funder, left)
            &&& forall|k: Pubkey|
                k != a.escrow ==> #[trigger] tokens(after, k) == tokens(accounts, k) + given(
                    !quote_native && k == a.quote_token_account,
                    order.quote_amount as int,
                ) - given(!quote_native && k == a.recipient_token_account, order.quote_amount as int)
                    + given(
                    !base_native && k == a.recipient_receive_token_account,
                    order.base_amount as int,
                )
        }),
{
    let order = order_of(accounts, a.order);
    let stored = with_order(
        accounts,
        a.order,
        Order { status: OrderStatus::Completed, ..order },
    );
    let paid = a.pay_quote_spec(stored, order)->Ok_0;
    let released = a.release_base_spec(paid, order)->Ok_0;
    assert(stored.contains_key(a.escrow) && stored[a.escrow] == accounts[a.escrow]);
    assert(paid.contains_key(a.escrow));
    assert(released.contains_key(a.escrow));
    if order.spec_is_quote_native() {
        assert(paid[a.escrow].lamports == accounts[a.escrow].lamports + given(
            a.quote_token_account == a.escrow,
            order.quote_amount as int,
        ));
    } else {
        assert(paid[a.escrow].lamports == accounts[a.escrow].lamports);
    }
    if order.spec_is_base_native() {
        assert(released[a.escrow].lamports == paid[a.escrow].lamports - order.base_amount);
    } else {
        assert(released[a.escrow].lamports == paid[a.escrow].lamports);
    }
}

/// An execution changes no account but the seven that it names: the order,
/// the funder, the recipient, the recipient's two accounts, the escrow and
/// the quote account.
pub proof fn lemma_execute_order_frame(
    a: ExecuteOrder,
    accounts: Map<Pubkey, Account>,
    ctx: Context,
    escrow_bump: u8,
)
    requires
        a.process_spec(accounts, ctx, escrow_bump) is Ok,
    ensures
        forall|k: Pubkey|
            k != a.order && k != a.funder && k != a.recipient && k != a.recipient_token_account
                && k != a.recipient_receive_token_account && k != a.escrow && k
                != a.quote_token_account ==> #[trigger] untouched(
                accounts,
                a.process_spec(accounts, ctx, escrow_bump)->Ok_0,
                k,
            ),
{
}

/// An order that is not in the state `Created` cannot be executed: the
/// instruction fails whatever accounts, bump and readings it is handed, and
/// with `InvalidOrderStatus` where the accounts fit the record.
pub proof fn lemma_execute_needs_created(
    a: ExecuteOrder,
    accounts: Map<Pubkey, Account>,
    ctx: Context,
    escrow_bump: u8,
)
    requires
        is_order(accounts, a.order),
        order_of(accounts, a.order).status != OrderStatus::Created,
    ensures
        a.process_spec(accounts, ctx, escrow_bump) is Err,
        a.accounts_error(accounts, ctx, escrow_bump) is None ==> a.process_spec(
            accounts,
            ctx,
            escrow_bump,
        ) == Err::<Map<Pubkey, Account>, InstructionError>(
            InstructionError::Program(ErrorCode::InvalidOrderStatus),
        ),
{
}

/// The time window is judged last, and outside of it no order is executed:
/// where every earlier step passes, a current time after the expire date
/// gives `OrderIsExpired`, and else one before the start date gives
/// `OrderIsNotStarted`.
pub proof fn lemma_execute_order_dates(
    a: ExecuteOrder,
    accounts: Map<Pubkey, Account>,
    ctx: Context,
    escrow_bump: u8,
)
    requires
        is_order(accounts, a.order),
    ensures
        ({
            let now = ctx.unix_timestamp;
            let order = order_of(accounts, a.order);
            let window = execute_window_error(now, order.start_date, order.expire_date);
            let outcome = a.process_spec(accounts, ctx, escrow_bump);
            &&& now > order.expire_date ==> window == Some(ErrorCode::OrderIsExpired)
            &&& now <= order.expire_date && order.start_date is Some && now < order.start_date->0
                ==> window == Some(ErrorCode::OrderIsNotStarted)
            &&& window is None <==> now <= order.expire_date && (order.start_date is Some
                ==> order.start_date->0 <= now)
            &&& window is Some ==> outcome is Err
            &&& window is Some && a.settled_spec(accounts, ctx, escrow_bump) is Ok ==> outcome
                == Err::<Map<Pubkey, Account>, InstructionError>(
                InstructionError::Program(window->0),
            )
        }),
{
}

/// The two legs as each party sees them, where the party's account plays no
/// second part in the instruction. The recipient's receiving account gains
/// the base amount, less the quote amount where both assets are native. The
/// quote account gains the quote amount; where the quote asset is native it
/// is the funder's wallet, which gains what was left in the escrow besides.
pub proof fn lemma_execute_order_gains(
    a: ExecuteOrder,
    accounts: Map<Pubkey, Account>,
    ctx: Context,
    escrow_bump: u8,
)
    requires
        escrow_in_custody(accounts, a.order),
        a.process_spec(accounts, ctx, escrow_bump) is Ok,
    ensures
        ({
            let after = a.process_spec(accounts, ctx, escrow_bump)->Ok_0;
            let order = order_of(accounts, a.order);
            let quote_native = order.spec_is_quote_native();
            let base_native = order.spec_is_base_native();
            let receiving = a.recipient_receive_token_account;
            let paying = a.recipient_token_account;
            let quote_account = a.quote_token_account;
            &&& !base_native && receiving != a.escrow && (quote_native || (receiving != paying
                && receiving != quote_account)) ==> tokens(after, receiving) == tokens(
                accounts,
                receiving,
            ) + order.base_amount
            &&& base_native && !quote_native && a.recipient != a.funder ==> utils::balance(
                after,
                a.recipient,
            ) == utils::balance(accounts, a.recipient) + order.base_amount
            &&& base_native && quote_native && a.recipient != a.funder && a.recipient
                != quote_account ==> utils::balance(after, a.recipient) == utils::balance(
                accounts,
                a.recipient,
            ) + order.base_amount - order.quote_amount
            &&& !quote_native && quote_account != a.escrow && quote_account != paying && (
            base_native || quote_account != receiving) ==> tokens(after, quote_account) == tokens(
                accounts,
                quote_account,
            ) + order.quote_amount
            &&& quote_native && quote_account == a.funder && a.funder != a.recipient ==> {
                &&& utils::balance(after, a.funder) >= utils::balance(accounts, a.funder)
                    + order.quote_amount
                &&& utils::balance(after, a.funder) == utils::balance(accounts, a.funder)
                    + order.quote_amount + accounts[a.escrow].lamports - given(
                    base_native,
                    order.base_amount as int,
                )
            }
        }),
{
    lemma_execute_order(a, accounts, ctx, escrow_bump);
}

/// The steps of an execution that succeeds, taken one after the other, do
/// to the accounts what the execution does.
pub proof fn lemma_execute_order_plan(
    a: ExecuteOrder,
    accounts: Map<Pubkey, Account>,
    ctx: Context,
    escrow_bump: u8,
)
    requires
        a.process_spec(accounts, ctx, escrow_bump) is Ok,
    ensures
        lift(carry_out(accounts, a.plan_spec(accounts))) == a.process_spec(
            accounts,
            ctx,
            escrow_bump,
        ),
{
    reveal_with_fuel(carry_out_from, 6);
}

} // verus!
