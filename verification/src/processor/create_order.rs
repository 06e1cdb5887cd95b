//! Creating an order: the record is written, the escrow is opened and
//! funded, and only then are the quote account and the dates judged.

use vstd::prelude::*;
use crate::clock::{check_create_window, create_window_error};
use crate::context::{Context, CreateOrder};
use crate::error::{ErrorCode, InstructionError, LedgerError};
use crate::ledger::{Account, AccountData, Ledger, TokenAccount};
use crate::plan::{carry_out, carry_out_from, Step};
use crate::processor::{
    escrow_in_custody, instruction_step, lift, tokens, untouched, with_order,
};
use crate::pubkey::Pubkey;
use crate::state::{Order, OrderStatus};
use crate::token;
use crate::utils;

verus! {

impl CreateOrder {
    /// The record that a new order starts with: status `Created`, and every
    /// other field as it was handed in.
    pub open spec fn new_order(
        self,
        base_amount: u64,
        quote_amount: u64,
        start_date: Option<i64>,
        expire_date: i64,
    ) -> Order {
        Order {
            status: OrderStatus::Created,
            base_amount,
            quote_amount,
            base_mint: self.escrow_mint,
            quote_mint: self.quote_mint,
            funder: self.funder,
            recipient: self.recipient,
            escrow: self.escrow,
            quote_token_account: self.quote_token_account,
            start_date,
            expire_date,
        }
    }

    /// Opening and funding the escrow. For the native asset the paying
    /// account must be the funder's own wallet; the escrow is a bare balance
    /// holder of this program. Otherwise the escrow is a token account that
    /// is its own authority, filled from the funder's token account.
    pub open spec fn fund_escrow_spec(
        self,
        accounts: Map<Pubkey, Account>,
        ctx: Context,
        base_amount: u64,
    ) -> Result<Map<Pubkey, Account>, InstructionError> {
        if self.escrow_mint.spec_is_system() {
            if self.funder_token_account != self.funder {
                Err(InstructionError::Program(ErrorCode::FunderAccountWalletMismatch))
            } else {
                match utils::sys_create_account_spec(
                    accounts,
                    self.funder,
                    self.escrow,
                    ctx.native_escrow_rent,
                    utils::ORDER_ESCROW_NATIVE_SIZE as u64,
                    ctx.program_id,
                ) {
                    Err(e) => Err(InstructionError::Ledger(e)),
                    Ok(opened) => lift(
                        utils::sys_transfer_spec(
                            opened,
                            self.funder_token_account,
                            self.escrow,
                            base_amount,
                        ),
                    ),
                }
            }
        } else {
            match utils::sys_create_account_spec(
                accounts,
                self.funder,
                self.escrow,
                ctx.token_escrow_rent,
                token::spec_token_account_len() as u64,
                ctx.token_program,
            ) {
                Err(e) => Err(InstructionError::Ledger(e)),
                Ok(opened) => match token::initialize_account_spec(
                    opened,
                    self.escrow,
                    self.escrow_mint,
                    self.escrow,
                ) {
                    Err(e) => Err(InstructionError::Ledger(e)),
                    Ok(initialized) => lift(
                        token::transfer_spec(
                            initialized,
                            self.funder_token_account,
                            self.escrow,
                            self.funder,
                            base_amount,
                        ),
                    ),
                },
            }
        }
    }

    /// The steps of a creation up to the funded escrow, in their order: the
    /// funder pays for the order account, which must be new; the escrow must
    /// be the derived address, which `escrow_is_derived` says; the record is
    /// written; the escrow is opened and funded.
    pub open spec fn funded_spec_with(
        self,
        accounts: Map<Pubkey, Account>,
        ctx: Context,
        escrow_is_derived: bool,
        base_amount: u64,
        quote_amount: u64,
        start_date: Option<i64>,
        expire_date: i64,
    ) -> Result<Map<Pubkey, Account>, InstructionError> {
        match utils::sys_create_account_spec(
            accounts,
            self.funder,
            self.order,
            ctx.order_rent,
            Order::LEN as u64,
            ctx.program_id,
        ) {
            Err(e) => Err(InstructionError::Ledger(e)),
            Ok(opened) => if !escrow_is_derived {
                Err(InstructionError::EscrowMismatch)
            } else {
                self.fund_escrow_spec(
                    with_order(
                        opened,
                        self.order,
                        self.new_order(base_amount, quote_amount, start_date, expire_date),
                    ),
                    ctx,
                    base_amount,
                )
            },
        }
    }

    /// The steps of a creation up to the funded escrow, where the escrow is
    /// held against the address derived with `escrow_bump`.
    pub open spec fn funded_spec(
        self,
        accounts: Map<Pubkey, Account>,
        ctx: Context,
        escrow_bump: u8,
        base_amount: u64,
        quote_amount: u64,
        start_date: Option<i64>,
        expire_date: i64,
    ) -> Result<Map<Pubkey, Account>, InstructionError> {
        self.funded_spec_with(
            accounts,
            ctx,
            utils::spec_is_order_escrow(
                self.escrow,
                self.funder,
                self.order,
                escrow_bump,
                ctx.program_id,
            ),
            base_amount,
            quote_amount,
            start_date,
            expire_date,
        )
    }

    /// What creating an order does to the accounts, or why it is refused,
    /// where `escrow_is_derived` says whether the escrow is the derived
    /// address. After the steps up to the funded escrow, a native quote must
    /// go to the funder's own wallet, and last the dates must fit the
    /// current time.
    pub open spec fn process_spec_with(
        self,
        accounts: Map<Pubkey, Account>,
        ctx: Context,
        escrow_is_derived: bool,
        base_amount: u64,
        quote_amount: u64,
        start_date: Option<i64>,
        expire_date: i64,
    ) -> Result<Map<Pubkey, Account>, InstructionError> {
        match self.funded_spec_with(
            accounts,
            ctx,
            escrow_is_derived,
            base_amount,
            quote_amount,
            start_date,
            expire_date,
        ) {
            Err(e) => Err(e),
            Ok(funded) => if self.quote_mint.spec_is_system() && self.quote_token_account
                != self.funder {
                Err(InstructionError::Program(ErrorCode::QuoteAccountWalletMismatch))
            } else {
                match create_window_error(ctx.unix_timestamp, start_date, expire_date) {
                    Some(e) => Err(InstructionError::Program(e)),
                    None => Ok(funded),
                }
            },
        }
    }

    /// What creating an order does to the accounts, or why it is refused:
    /// the escrow is held against the address derived with `escrow_bump`.
    pub open spec fn process_spec(
        self,
        accounts: Map<Pubkey, Account>,
        ctx: Context,
        escrow_bump: u8,
        base_amount: u64,
        quote_amount: u64,
        start_date: Option<i64>,
        expire_date: i64,
    ) -> Result<Map<Pubkey, Account>, InstructionError> {
        self.process_spec_with(
            accounts,
            ctx,
            utils::spec_is_order_escrow(
                self.escrow,
                self.funder,
                self.order,
                escrow_bump,
                ctx.program_id,
            ),
            base_amount,
            quote_amount,
            start_date,
            expire_date,
        )
    }

    fn fund_escrow(&self, ledger: &mut Ledger, ctx: &Context, base_amount: u64) -> (r: Result<
        (),
        InstructionError,
    >)
        ensures
            match self.fund_escrow_spec(old(ledger)@, *ctx, base_amount) {
                Ok(accounts) => r is Ok && final(ledger)@ == accounts,
                Err(e) => r == Err::<(), InstructionError>(e),
            },
    {
        if self.escrow_mint.is_system() {
            if self.funder_token_account != self.funder {
                return Err(InstructionError::Program(ErrorCode::FunderAccountWalletMismatch));
            }
            if let Err(e) = utils::sys_create_account(
                ledger,
                &self.funder,
                &self.escrow,
                ctx.native_escrow_rent,
                utils::ORDER_ESCROW_NATIVE_SIZE,
                &ctx.program_id,
            ) {
                return Err(InstructionError::Ledger(e));
            }
            if let Err(e) = utils::sys_transfer(
                ledger,
                &self.funder_token_account,
                &self.escrow,
                base_amount,
            ) {
                return Err(InstructionError::Ledger(e));
            }
        } else {
            if let Err(e) = utils::sys_create_account(
                ledger,
                &self.funder,
                &self.escrow,
                ctx.token_escrow_rent,
                token::token_account_len(),
                &ctx.token_program,
            ) {
                return Err(InstructionError::Ledger(e));
            }
            if let Err(e) = token::initialize_account(
                ledger,
                &self.escrow,
                &self.escrow_mint,
                &self.escrow,
            ) {
                return Err(InstructionError::Ledger(e));
            }
            if let Err(e) = token::transfer(
                ledger,
                &self.funder_token_account,
                &self.escrow,
                &self.funder,
                base_amount,
            ) {
                return Err(InstructionError::Ledger(e));
            }
        }
        Ok(())
    }

    fn apply(
        &self,
        ledger: &mut Ledger,
        ctx: &Context,
        escrow_is_derived: bool,
        base_amount: u64,
        quote_amount: u64,
        start_date: Option<i64>,
        expire_date: i64,
    ) -> (r: Result<(), InstructionError>)
        ensures
            match self.process_spec_with(
                old(ledger)@,
                *ctx,
                escrow_is_derived,
                base_amount,
                quote_amount,
                start_date,
                expire_date,
            ) {
                Ok(accounts) => r is Ok && final(ledger)@ == accounts,
                Err(e) => r == Err::<(), InstructionError>(e),
            },
    {
        if let Err(e) = utils::sys_create_account(
            ledger,
            &self.funder,
            &self.order,
            ctx.order_rent,
            Order::LEN,
            &ctx.program_id,
        ) {
            return Err(InstructionError::Ledger(e));
        }
        if !escrow_is_derived {
            return Err(InstructionError::EscrowMismatch);
        }
        let order = Order {
            status: OrderStatus::Created,
            base_amount,
            quote_amount,
            base_mint: self.escrow_mint,
            quote_mint: self.quote_mint,
            funder: self.funder,
            recipient: self.recipient,
            escrow: self.escrow,
            quote_token_account: self.quote_token_account,
            start_date,
            expire_date,
        };
        if let Some(account) = ledger.get(&self.order) {
            ledger.set(self.order, Account { data: AccountData::Order(order), ..account });
        }
        self.fund_escrow(ledger, ctx, base_amount)?;
        if self.quote_mint.is_system() && self.quote_token_account != self.funder {
            return Err(InstructionError::Program(ErrorCode::QuoteAccountWalletMismatch));
        }
        if let Err(e) = check_create_window(ctx.unix_timestamp, start_date, expire_date) {
            return Err(InstructionError::Program(e));
        }
        Ok(())
    }

    /// The steps of a creation that succeeds: the order account is opened
    /// and the record written; the escrow is opened, as a token account
    /// initialized, and funded.
    pub open spec fn plan_spec(
        self,
        ctx: Context,
        base_amount: u64,
        quote_amount: u64,
        start_date: Option<i64>,
        expire_date: i64,
    ) -> Seq<Step> {
        let open_order = Step::CreateAccount {
            from: self.funder,
            to: self.order,
            lamports: ctx.order_rent,
            space: Order::LEN,
            owner: ctx.program_id,
        };
        let store = Step::StoreOrder {
            account: self.order,
            order: self.new_order(base_amount, quote_amount, start_date, expire_date),
        };
        if self.escrow_mint.spec_is_system() {
            seq![
                open_order,
                store,
                Step::CreateAccount {
                    from: self.funder,
                    to: self.escrow,
                    lamports: ctx.native_escrow_rent,
                    space: utils::ORDER_ESCROW_NATIVE_SIZE,
                    owner: ctx.program_id,
                },
                Step::SystemTransfer {
                    from: self.funder_token_account,
                    to: self.escrow,
                    lamports: base_amount,
                },
            ]
        } else {
            seq![
                open_order,
                store,
                Step::CreateAccount {
                    from: self.funder,
                    to: self.escrow,
                    lamports: ctx.token_escrow_rent,
                    space: token::spec_token_account_len(),
                    owner: ctx.token_program,
                },
                Step::InitializeAccount {
                    account: self.escrow,
                    mint: self.escrow_mint,
                    authority: self.escrow,
                },
                Step::TokenTransfer {
                    from: self.funder_token_account,
                    to: self.escrow,
                    authority: self.funder,
                    amount: base_amount,
                },
            ]
        }
    }

    /// The steps by which the order is created on the ledger as it stands,
    /// or the reason why it cannot be. The ledger is not changed.
    pub fn plan(
        &self,
        ledger: &Ledger,
        ctx: &Context,
        escrow_bump: u8,
        base_amount: u64,
        quote_amount: u64,
        start_date: Option<i64>,
        expire_date: i64,
    ) -> (r: Result<Vec<Step>, InstructionError>)
        ensures
            match self.process_spec(
                ledger@,
                *ctx,
                escrow_bump,
                base_amount,
                quote_amount,
                start_date,
                expire_date,
            ) {
                Ok(_) => r is Ok && r->Ok_0@ == self.plan_spec(
                    *ctx,
                    base_amount,
                    quote_amount,
                    start_date,
                    expire_date,
                ),
                Err(e) => r == Err::<Vec<Step>, InstructionError>(e),
            },
    {
        let escrow_is_derived = utils::is_order_escrow(
            &self.escrow,
            &self.funder,
            &self.order,
            escrow_bump,
            &ctx.program_id,
        );
        let mut work = ledger.snapshot();
        self.apply(
            &mut work,
            ctx,
            escrow_is_derived,
            base_amount,
            quote_amount,
            start_date,
            expire_date,
        )?;
        let order = Order {
            status: OrderStatus::Created,
            base_amount,
            quote_amount,
            base_mint: self.escrow_mint,
            quote_mint: self.quote_mint,
            funder: self.funder,
            recipient: self.recipient,
            escrow: self.escrow,
            quote_token_account: self.quote_token_account,
            start_date,
            expire_date,
        };
        let mut steps: Vec<Step> = Vec::new();
        steps.push(
            Step::CreateAccount {
                from: self.funder,
                to: self.order,
                lamports: ctx.order_rent,
                space: Order::LEN,
                owner: ctx.program_id,
            },
        );
        steps.push(Step::StoreOrder { account: self.order, order });
        if self.escrow_mint.is_system() {
            steps.push(
                Step::CreateAccount {
                    from: self.funder,
                    to: self.escrow,
                    lamports: ctx.native_escrow_rent,
                    space: utils::ORDER_ESCROW_NATIVE_SIZE,
                    owner: ctx.program_id,
                },
            );
            steps.push(
                Step::SystemTransfer {
                    from: self.funder_token_account,
                    to: self.escrow,
                    lamports: base_amount,
                },
            );
        } else {
            steps.push(
                Step::CreateAccount {
                    from: self.funder,
                    to: self.escrow,
                    lamports: ctx.token_escrow_rent,
                    space: token::token_account_len(),
                    owner: ctx.token_program,
                },
            );
            steps.push(
                Step::InitializeAccount {
                    account: self.escrow,
                    mint: self.escrow_mint,
                    authority: self.escrow,
                },
            );
            steps.push(
                Step::TokenTransfer {
                    from: self.funder_token_account,
                    to: self.escrow,
                    authority: self.funder,
                    amount: base_amount,
                },
            );
        }
        assert(steps@ =~= self.plan_spec(*ctx, base_amount, quote_amount, start_date, expire_date));
        Ok(steps)
    }

    /// Creates the order, where `escrow_is_derived` says whether
    /// `self.escrow` is the address derived from the funder, the order and
    /// the bump: writes the record under `self.order`, opens the escrow and
    /// moves `base_amount` into it. On any error nothing is left of the
    /// attempt.
    pub fn process_with(
        &self,
        ledger: &mut Ledger,
        ctx: &Context,
        escrow_is_derived: bool,
        base_amount: u64,
        quote_amount: u64,
        start_date: Option<i64>,
        expire_date: i64,
    ) -> (r: Result<(), InstructionError>)
        ensures
            instruction_step(
                old(ledger)@,
                final(ledger)@,
                r,
                self.process_spec_with(
                    old(ledger)@,
                    *ctx,
                    escrow_is_derived,
                    base_amount,
                    quote_amount,
                    start_date,
                    expire_date,
                ),
            ),
    {
        let mut work = ledger.snapshot();
        match self.apply(
            &mut work,
            ctx,
            escrow_is_derived,
            base_amount,
            quote_amount,
            start_date,
            expire_date,
        ) {
            Ok(()) => {
                *ledger = work;
                Ok(())
            },
            Err(e) => Err(e),
        }
    }

    /// Creates the order: holds `self.escrow` against the address derived
    /// with `escrow_bump`, writes the record under `self.order`, opens the
    /// escrow and moves `base_amount` into it. On any error nothing is left
    /// of the attempt.
    pub fn process(
        &self,
        ledger: &mut Ledger,
        ctx: &Context,
        escrow_bump: u8,
        base_amount: u64,
        quote_amount: u64,
        start_date: Option<i64>,
        expire_date: i64,
    ) -> (r: Result<(), InstructionError>)
        ensures
            instruction_step(
                old(ledger)@,
                final(ledger)@,
                r,
                self.process_spec(
                    old(ledger)@,
                    *ctx,
                    escrow_bump,
                    base_amount,
                    quote_amount,
                    start_date,
                    expire_date,
                ),
            ),
    {
        let escrow_is_derived = utils::is_order_escrow(
            &self.escrow,
            &self.funder,
            &self.order,
            escrow_bump,
            &ctx.program_id,
        );
        self.process_with(
            ledger,
            ctx,
            escrow_is_derived,
            base_amount,
            quote_amount,
            start_date,
            expire_date,
        )
    }
}

/// What holds after every order creation that succeeds. The order account
/// and the escrow are new. The record has the status `Created` and echoes
/// the arguments. The escrow holds the base amount: as a bare balance holder
/// of this program on top of its rent, or as a token account that is its own
/// authority. The funder has paid the two rents and, with the escrow, the
/// base amount; no other account has changed. The custody rule holds of the
/// new order.
pub proof fn lemma_create_order(
    a: CreateOrder,
    accounts: Map<Pubkey, Account>,
    ctx: Context,
    escrow_bump: u8,
    base_amount: u64,
    quote_amount: u64,
    start_date: Option<i64>,
    expire_date: i64,
)
    requires
        a.process_spec(
            accounts,
            ctx,
            escrow_bump,
            base_amount,
            quote_amount,
            start_date,
            expire_date,
        ) is Ok,
    ensures
        ({
            let after = a.process_spec(
                accounts,
                ctx,
                escrow_bump,
                base_amount,
                quote_amount,
                start_date,
                expire_date,
            )->Ok_0;
            &&& !accounts.contains_key(a.order)
            &&& !accounts.contains_key(a.escrow)
            &&& a.order != a.escrow
            &&& utils::spec_is_order_escrow(a.escrow, a.funder, a.order, escrow_bump, ctx.program_id)
            &&& create_window_error(ctx.unix_timestamp, start_date, expire_date) is None
            &&& after.contains_key(a.order)
            &&& after[a.order] == Account {
                lamports: ctx.order_rent,
                owner: ctx.program_id,
                space: Order::LEN as u64,
                data: AccountData::Order(
                    a.new_order(base_amount, quote_amount, start_date, expire_date),
                ),
            }
            &&& after.contains_key(a.escrow)
            &&& a.escrow_mint.spec_is_system() ==> {
                &&& a.funder_token_account == a.funder
                &&& after[a.escrow] == Account {
                    lamports: (ctx.native_escrow_rent + base_amount) as u64,
                    owner: ctx.program_id,
                    space: utils::ORDER_ESCROW_NATIVE_SIZE as u64,
                    data: AccountData::Empty,
                }
                &&& ctx.native_escrow_rent + base_amount <= u64::MAX
                &&& utils::balance(after, a.funder) == utils::balance(accounts, a.funder)
                    - ctx.order_rent - ctx.native_escrow_rent - base_amount
            }
            &&& !a.escrow_mint.spec_is_system() ==> {
                &&& after[a.escrow] == Account {
                    lamports: ctx.token_escrow_rent,
                    owner: ctx.token_program,
                    space: token::spec_token_account_len() as u64,
                    data: AccountData::Token(
                        TokenAccount {
                            mint: a.escrow_mint,
                            authority: a.escrow,
                            amount: base_amount,
                        },
                    ),
                }
                &&& utils::balance(after, a.funder) == utils::balance(accounts, a.funder)
                    - ctx.order_rent - ctx.token_escrow_rent
                &&& a.funder_token_account != a.escrow
                &&& tokens(after, a.funder_token_account) == tokens(
                    accounts,
                    a.funder_token_account,
                ) - base_amount
            }
            &&& forall|k: Pubkey|
                k != a.order && k != a.escrow && k != a.funder && k != a.funder_token_account
                    ==> #[trigger] untouched(accounts, after, k)
            &&& a.quote_mint.spec_is_system() ==> a.quote_token_account == a.funder
            &&& escrow_in_custody(after, a.order)
        }),
{
}

/// Dates that do not fit the current time never give an order, and they are
/// judged last: where every earlier step passes, the error is the one that
/// the dates give. An expire date that is not in the future gives
/// `ExpireDateInThePast`; else a start date in the past gives
/// `StartDateInThePast`; a start date that is not before the expire date
/// gives `ExpireDateInThePast` in any case.
pub proof fn lemma_create_order_dates(
    a: CreateOrder,
    accounts: Map<Pubkey, Account>,
    ctx: Context,
    escrow_bump: u8,
    base_amount: u64,
    quote_amount: u64,
    start_date: Option<i64>,
    expire_date: i64,
)
    ensures
        ({
            let now = ctx.unix_timestamp;
            let window = create_window_error(now, start_date, expire_date);
            let outcome = a.process_spec(
                accounts,
                ctx,
                escrow_bump,
                base_amount,
                quote_amount,
                start_date,
                expire_date,
            );
            let funded = a.funded_spec(
                accounts,
                ctx,
                escrow_bump,
                base_amount,
                quote_amount,
                start_date,
                expire_date,
            );
            &&& expire_date <= now ==> window == Some(ErrorCode::ExpireDateInThePast)
            &&& start_date is Some && start_date->0 < now < expire_date ==> window == Some(
                ErrorCode::StartDateInThePast,
            )
            &&& start_date is Some && start_date->0 >= expire_date ==> window == Some(
                ErrorCode::ExpireDateInThePast,
            )
            &&& window is None <==> now < expire_date && (start_date is Some ==> now
                <= start_date->0 < expire_date)
            &&& window is Some ==> outcome is Err
            &&& window is Some && funded is Ok && (a.quote_mint.spec_is_system()
                ==> a.quote_token_account == a.funder) ==> outcome == Err::<
                Map<Pubkey, Account>,
                InstructionError,
            >(InstructionError::Program(window->0))
        }),
{
}

/// A native base asset has to come from the funder's own wallet, and a
/// native quote asset has to go to it: once the order account is paid for
/// and the escrow is the derived address, another paying account gives
/// `FunderAccountWalletMismatch`; once the escrow is funded, another quote
/// account gives `QuoteAccountWalletMismatch`.
pub proof fn lemma_create_order_wallets(
    a: CreateOrder,
    accounts: Map<Pubkey, Account>,
    ctx: Context,
    escrow_bump: u8,
    base_amount: u64,
    quote_amount: u64,
    start_date: Option<i64>,
    expire_date: i64,
)
    ensures
        ({
            let outcome = a.process_spec(
                accounts,
                ctx,
                escrow_bump,
                base_amount,
                quote_amount,
                start_date,
                expire_date,
            );
            let funded = a.funded_spec(
                accounts,
                ctx,
                escrow_bump,
                base_amount,
                quote_amount,
                start_date,
                expire_date,
            );
            let paid = utils::sys_create_account_spec(
                accounts,
                a.funder,
                a.order,
                ctx.order_rent,
                Order::LEN as u64,
                ctx.program_id,
            );
            &&& a.escrow_mint.spec_is_system() && a.funder_token_account != a.funder
                ==> outcome is Err
            &&& a.escrow_mint.spec_is_system() && a.funder_token_account != a.funder && paid is Ok
                && utils::spec_is_order_escrow(
                a.escrow,
                a.funder,
                a.order,
                escrow_bump,
                ctx.program_id,
            ) ==> outcome == Err::<Map<Pubkey, Account>, InstructionError>(
                InstructionError::Program(ErrorCode::FunderAccountWalletMismatch),
            )
            &&& a.quote_mint.spec_is_system() && a.quote_token_account != a.funder
                ==> outcome is Err
            &&& a.quote_mint.spec_is_system() && a.quote_token_account != a.funder && funded is Ok
                ==> outcome == Err::<Map<Pubkey, Account>, InstructionError>(
                InstructionError::Program(ErrorCode::QuoteAccountWalletMismatch),
            )
        }),
{
}

/// No order is created over an account that is in use: a record, once
/// written, is never written anew.
pub proof fn lemma_create_needs_new(
    a: CreateOrder,
    accounts: Map<Pubkey, Account>,
    ctx: Context,
    escrow_bump: u8,
    base_amount: u64,
    quote_amount: u64,
    start_date: Option<i64>,
    expire_date: i64,
)
    requires
        accounts.contains_key(a.order),
    ensures
        a.process_spec(
            accounts,
            ctx,
            escrow_bump,
            base_amount,
            quote_amount,
            start_date,
            expire_date,
        ) == Err::<Map<Pubkey, Account>, InstructionError>(
            InstructionError::Ledger(LedgerError::AccountAlreadyInUse),
        ),
{
}

/// The steps of a creation that succeeds, taken one after the other, do to
/// the accounts what the creation does.
pub proof fn lemma_create_order_plan(
    a: CreateOrder,
    accounts: Map<Pubkey, Account>,
    ctx: Context,
    escrow_bump: u8,
    base_amount: u64,
    quote_amount: u64,
    start_date: Option<i64>,
    expire_date: i64,
)
    requires
        a.process_spec(
            accounts,
            ctx,
            escrow_bump,
            base_amount,
            quote_amount,
            start_date,
            expire_date,
        ) is Ok,
    ensures
        lift(
            carry_out(
                accounts,
                a.plan_spec(ctx, base_amount, quote_amount, start_date, expire_date),
            ),
        ) == a.process_spec(
            accounts,
            ctx,
            escrow_bump,
            base_amount,
            quote_amount,
            start_date,
            expire_date,
        ),
{
    reveal_with_fuel(carry_out_from, 6);
}

} // verus!
