//! The assets in the whole ledger: no instruction makes any of the native
//! asset or of a token, and none lets any of it vanish.

use vstd::prelude::*;
use crate::context::{CancelOrder, Context, CreateOrder, ExecuteOrder};
use crate::instruction::{process_instruction_spec, AccountMeta, OrderInstruction};
use crate::ledger::{Account, AccountData};
use crate::plan::{carry_out_from, Step};
use crate::processor::cancel_order::lemma_cancel_order_plan;
use crate::processor::create_order::lemma_create_order_plan;
use crate::processor::execute_order::lemma_execute_order_plan;
use crate::processor::{escrow_in_custody, is_order, order_of};
use crate::pubkey::Pubkey;

verus! {

/// What all accounts weigh together, each weighed by `weight`.
pub open spec fn total(accounts: Map<Pubkey, Account>, weight: spec_fn(Account) -> int) -> int
    decreases accounts.dom().len(),
    when accounts.dom().finite()
{
    if accounts.dom().len() == 0 {
        0
    } else {
        let key = accounts.dom().choose();
        weight(accounts[key]) + total(accounts.remove(key), weight)
    }
}

/// What the account under `key` weighs; nothing where no account stands.
pub open spec fn weight_at(
    accounts: Map<Pubkey, Account>,
    weight: spec_fn(Account) -> int,
    key: Pubkey,
) -> int {
    if accounts.contains_key(key) {
        weight(accounts[key])
    } else {
        0
    }
}

/// The total is the weight of any one account and the total of the rest.
pub proof fn lemma_total_apart(
    accounts: Map<Pubkey, Account>,
    weight: spec_fn(Account) -> int,
    key: Pubkey,
)
    requires
        accounts.dom().finite(),
    ensures
        total(accounts, weight) == weight_at(accounts, weight, key) + total(
            accounts.remove(key),
            weight,
        ),
    decreases accounts.dom().len(),
{
    if !accounts.contains_key(key) {
        assert(accounts.remove(key) =~= accounts);
    } else {
        let chosen = accounts.dom().choose();
        if chosen != key {
            let rest = accounts.remove(chosen);
            lemma_total_apart(rest, weight, key);
            lemma_total_apart(accounts.remove(key), weight, chosen);
            assert(rest.remove(key) =~= accounts.remove(key).remove(chosen));
        }
    }
}

/// Putting an account under an address changes the total by what the
/// account weighs more than what stood there.
pub proof fn lemma_total_insert(
    accounts: Map<Pubkey, Account>,
    weight: spec_fn(Account) -> int,
    key: Pubkey,
    account: Account,
)
    requires
        accounts.dom().finite(),
    ensures
        accounts.insert(key, account).dom().finite(),
        total(accounts.insert(key, account), weight) == total(accounts, weight) - weight_at(
            accounts,
            weight,
            key,
        ) + weight(account),
{
    lemma_total_apart(accounts, weight, key);
    lemma_total_apart(accounts.insert(key, account), weight, key);
    assert(accounts.insert(key, account).remove(key) =~= accounts.remove(key));
}

/// Taking an account away takes its weight out of the total.
pub proof fn lemma_total_remove(
    accounts: Map<Pubkey, Account>,
    weight: spec_fn(Account) -> int,
    key: Pubkey,
)
    requires
        accounts.dom().finite(),
    ensures
        accounts.remove(key).dom().finite(),
        total(accounts.remove(key), weight) == total(accounts, weight) - weight_at(
            accounts,
            weight,
            key,
        ),
{
    lemma_total_apart(accounts, weight, key);
}

/// The native balances of all accounts together.
pub open spec fn supply(accounts: Map<Pubkey, Account>) -> int {
    total(accounts, |account: Account| account.lamports as int)
}

/// The tokens of `mint` that an account holds.
pub open spec fn held(account: Account, mint: Pubkey) -> int {
    match account.data {
        AccountData::Token(t) => if t.mint == mint {
            t.amount as int
        } else {
            0
        },
        _ => 0,
    }
}

/// The tokens of `mint` that the account under `key` holds; nothing where
/// no account stands.
pub open spec fn held_at(accounts: Map<Pubkey, Account>, key: Pubkey, mint: Pubkey) -> int {
    if accounts.contains_key(key) {
        held(accounts[key], mint)
    } else {
        0
    }
}

/// The tokens of `mint` in all accounts together.
pub open spec fn token_supply(accounts: Map<Pubkey, Account>, mint: Pubkey) -> int {
    total(accounts, |account: Account| held(account, mint))
}

/// Whether `weight` weighs the native balance, where `native` holds, or
/// else the tokens of `mint`.
spec fn weighs(weight: spec_fn(Account) -> int, native: bool, mint: Pubkey) -> bool {
    if native {
        weight == (|account: Account| account.lamports as int)
    } else {
        weight == (|account: Account| held(account, mint))
    }
}

/// Taking some of the native asset out of an account takes as much out of
/// its total, and changes no total of tokens.
proof fn lemma_total_debited(
    accounts: Map<Pubkey, Account>,
    weight: spec_fn(Account) -> int,
    native: bool,
    mint: Pubkey,
    key: Pubkey,
    lamports: u64,
)
    requires
        accounts.dom().finite(),
        weighs(weight, native, mint),
        accounts.contains_key(key),
        accounts[key].lamports >= lamports,
    ensures
        crate::utils::debited(accounts, key, lamports).dom().finite(),
        total(crate::utils::debited(accounts, key, lamports), weight) == total(accounts, weight)
            - (if native {
            lamports as int
        } else {
            0
        }),
{
    lemma_total_insert(
        accounts,
        weight,
        key,
        crate::utils::debited(accounts, key, lamports)[key],
    );
}

/// Putting some of the native asset into an account puts as much into its
/// total, and changes no total of tokens.
proof fn lemma_total_credited(
    accounts: Map<Pubkey, Account>,
    weight: spec_fn(Account) -> int,
    native: bool,
    mint: Pubkey,
    key: Pubkey,
    lamports: u64,
)
    requires
        accounts.dom().finite(),
        weighs(weight, native, mint),
        crate::utils::balance(accounts, key) + lamports <= u64::MAX,
    ensures
        crate::utils::credited(accounts, key, lamports).dom().finite(),
        total(crate::utils::credited(accounts, key, lamports), weight) == total(accounts, weight)
            + (if native {
            lamports as int
        } else {
            0
        }),
{
    if accounts.contains_key(key) || lamports != 0 {
        lemma_total_insert(
            accounts,
            weight,
            key,
            crate::utils::credited(accounts, key, lamports)[key],
        );
    }
}

/// No step changes a total, of the native asset or of the tokens of a mint,
/// as long as the program deletes and overwrites only accounts that hold no
/// tokens of the mint.
proof fn lemma_step_keeps_total(
    step: Step,
    accounts: Map<Pubkey, Account>,
    weight: spec_fn(Account) -> int,
    native: bool,
    mint: Pubkey,
)
    requires
        accounts.dom().finite(),
        step.spec_apply(accounts) is Ok,
        weighs(weight, native, mint),
        !native ==> (step matches Step::DeleteAccount { target, .. } ==> weight_at(
            accounts,
            weight,
            target,
        ) == 0),
        !native ==> (step matches Step::StoreOrder { account, .. } ==> weight_at(
            accounts,
            weight,
            account,
        ) == 0),
    ensures
        step.spec_apply(accounts)->Ok_0.dom().finite(),
        total(step.spec_apply(accounts)->Ok_0, weight) == total(accounts, weight),
{
    let after = step.spec_apply(accounts)->Ok_0;
    match step {
        Step::CreateAccount { from, to, lamports, space, owner } => {
            let paid = crate::utils::debited(accounts, from, lamports);
            lemma_total_debited(accounts, weight, native, mint, from, lamports);
            lemma_total_insert(paid, weight, to, after[to]);
        },
        Step::SystemTransfer { from, to, lamports } => {
            let paid = crate::utils::debited(accounts, from, lamports);
            lemma_total_debited(accounts, weight, native, mint, from, lamports);
            lemma_total_credited(paid, weight, native, mint, to, lamports);
        },
        Step::MoveLamports { src, dst, lamports } => {
            if accounts.contains_key(src) {
                let paid = crate::utils::debited(accounts, src, lamports);
                lemma_total_debited(accounts, weight, native, mint, src, lamports);
                lemma_total_credited(paid, weight, native, mint, dst, lamports);
            }
        },
        Step::DeleteAccount { target, receiver } => {
            if accounts.contains_key(target) {
                let paid = crate::utils::credited(accounts, receiver, accounts[target].lamports);
                lemma_total_credited(
                    accounts,
                    weight,
                    native,
                    mint,
                    receiver,
                    accounts[target].lamports,
                );
                lemma_total_remove(paid, weight, target);
            }
        },
        Step::InitializeAccount { account, mint, authority } => {
            lemma_total_insert(accounts, weight, account, after[account]);
        },
        Step::TokenTransfer { from, to, authority, amount } => {
            if from != to {
                let between = accounts.insert(from, after[from]);
                lemma_total_insert(accounts, weight, from, after[from]);
                lemma_total_insert(between, weight, to, after[to]);
                assert(after =~= between.insert(to, after[to]));
            }
        },
        Step::CloseAccount { account, destination, authority } => {
            let paid = crate::utils::credited(accounts, destination, accounts[account].lamports);
            lemma_total_credited(
                accounts,
                weight,
                native,
                mint,
                destination,
                accounts[account].lamports,
            );
            lemma_total_remove(paid, weight, account);
        },
        Step::StoreOrder { account, order } => {
            lemma_total_insert(accounts, weight, account, after[account]);
        },
    }
}

/// No step changes the supply of the native asset.
pub proof fn lemma_step_keeps_supply(step: Step, accounts: Map<Pubkey, Account>)
    requires
        accounts.dom().finite(),
        step.spec_apply(accounts) is Ok,
    ensures
        step.spec_apply(accounts)->Ok_0.dom().finite(),
        supply(step.spec_apply(accounts)->Ok_0) == supply(accounts),
{
    lemma_step_keeps_total(
        step,
        accounts,
        |account: Account| account.lamports as int,
        true,
        Pubkey::spec_system(),
    );
}

/// No step changes the supply of a token, as long as the program deletes and
/// overwrites only accounts that hold none of it.
pub proof fn lemma_step_keeps_token_supply(step: Step, accounts: Map<Pubkey, Account>, mint: Pubkey)
    requires
        accounts.dom().finite(),
        step.spec_apply(accounts) is Ok,
        step matches Step::DeleteAccount { target, .. } ==> held_at(accounts, target, mint) == 0,
        step matches Step::StoreOrder { account, .. } ==> held_at(accounts, account, mint) == 0,
    ensures
        step.spec_apply(accounts)->Ok_0.dom().finite(),
        token_supply(step.spec_apply(accounts)->Ok_0, mint) == token_supply(accounts, mint),
{
    lemma_step_keeps_total(step, accounts, |account: Account| held(account, mint), false, mint);
}

/// No run of steps changes the supply of the native asset.
pub proof fn lemma_steps_keep_supply(accounts: Map<Pubkey, Account>, steps: Seq<Step>, at: int)
    requires
        accounts.dom().finite(),
        carry_out_from(accounts, steps, at) is Ok,
    ensures
        carry_out_from(accounts, steps, at)->Ok_0.dom().finite(),
        supply(carry_out_from(accounts, steps, at)->Ok_0) == supply(accounts),
    decreases steps.len() - at,
{
    if 0 <= at < steps.len() {
        lemma_step_keeps_supply(steps[at], accounts);
        lemma_steps_keep_supply(steps[at].spec_apply(accounts)->Ok_0, steps, at + 1);
    }
}

/// Whether the steps from the place `at` on delete and overwrite only
/// accounts that hold no tokens of `mint` at the time.
pub open spec fn spares_tokens(
    accounts: Map<Pubkey, Account>,
    steps: Seq<Step>,
    at: int,
    mint: Pubkey,
) -> bool
    decreases steps.len() - at,
{
    if at < 0 || at >= steps.len() {
        true
    } else {
        &&& steps[at] matches Step::DeleteAccount { target, .. } ==> held_at(
            accounts,
            target,
            mint,
        ) == 0
        &&& steps[at] matches Step::StoreOrder { account, .. } ==> held_at(accounts, account, mint)
            == 0
        &&& steps[at].spec_apply(accounts) matches Ok(next) ==> spares_tokens(
            next,
            steps,
            at + 1,
            mint,
        )
    }
}

/// Steps of the system program and of the token sub-system spare every
/// token.
proof fn lemma_outside_steps_spare_tokens(
    accounts: Map<Pubkey, Account>,
    steps: Seq<Step>,
    at: int,
    mint: Pubkey,
)
    requires
        forall|i: int|
            at <= i < steps.len() ==> !(#[trigger] steps[i] is DeleteAccount) && !(steps[i]
                is StoreOrder),
    ensures
        spares_tokens(accounts, steps, at, mint),
    decreases steps.len() - at,
{
    if 0 <= at < steps.len() {
        if steps[at].spec_apply(accounts) is Ok {
            lemma_outside_steps_spare_tokens(
                steps[at].spec_apply(accounts)->Ok_0,
                steps,
                at + 1,
                mint,
            );
        }
    }
}

/// No run of steps that spares the tokens of a mint changes their supply.
pub proof fn lemma_steps_keep_token_supply(
    accounts: Map<Pubkey, Account>,
    steps: Seq<Step>,
    at: int,
    mint: Pubkey,
)
    requires
        accounts.dom().finite(),
        carry_out_from(accounts, steps, at) is Ok,
        spares_tokens(accounts, steps, at, mint),
    ensures
        token_supply(carry_out_from(accounts, steps, at)->Ok_0, mint) == token_supply(
            accounts,
            mint,
        ),
    decreases steps.len() - at,
{
    if 0 <= at < steps.len() {
        lemma_step_keeps_token_supply(steps[at], accounts, mint);
        lemma_steps_keep_token_supply(steps[at].spec_apply(accounts)->Ok_0, steps, at + 1, mint);
    }
}

/// Creating an order changes the supply neither of the native asset nor of
/// any token: what the funder pays stands in the order account and in the
/// escrow.
pub proof fn lemma_create_order_keeps_supply(
    a: CreateOrder,
    accounts: Map<Pubkey, Account>,
    ctx: Context,
    escrow_bump: u8,
    base_amount: u64,
    quote_amount: u64,
    start_date: Option<i64>,
    expire_date: i64,
    mint: Pubkey,
)
    requires
        accounts.dom().finite(),
        a.process_spec(
            accounts,
            ctx,
            escrow_bump,
            base_amount,
            quote_amount,
            start_date,
            expire_date,
        ) is Ok,
    ensures
        ({
            let after = a.process_spec(
                accounts,
                ctx,
                escrow_bump,
                base_amount,
                quote_amount,
                start_date,
                expire_date,
            )->Ok_0;
            &&& after.dom().finite()
            &&& supply(after) == supply(accounts)
            &&& token_supply(after, mint) == token_supply(accounts, mint)
        }),
{
    let steps = a.plan_spec(ctx, base_amount, quote_amount, start_date, expire_date);
    lemma_create_order_plan(
        a,
        accounts,
        ctx,
        escrow_bump,
        base_amount,
        quote_amount,
        start_date,
        expire_date,
    );
    lemma_steps_keep_supply(accounts, steps, 0);
    assert(spares_tokens(accounts, steps, 0, mint)) by {
        reveal_with_fuel(carry_out_from, 3);
        let opened = steps[0].spec_apply(accounts)->Ok_0;
        let stored = steps[1].spec_apply(opened)->Ok_0;
        assert(opened[a.order].data == AccountData::Empty);
        lemma_outside_steps_spare_tokens(stored, steps, 2, mint);
        assert(spares_tokens(opened, steps, 1, mint));
    }
    lemma_steps_keep_token_supply(accounts, steps, 0, mint);
}

/// Canceling an order under the custody rule changes the supply neither of
/// the native asset nor of any token: what the escrow held, the funder
/// holds.
pub proof fn lemma_cancel_order_keeps_supply(
    a: CancelOrder,
    accounts: Map<Pubkey, Account>,
    ctx: Context,
    escrow_bump: u8,
    mint: Pubkey,
)
    requires
        accounts.dom().finite(),
        escrow_in_custody(accounts, a.order),
        a.process_spec(accounts, ctx, escrow_bump) is Ok,
    ensures
        ({
            let after = a.process_spec(accounts, ctx, escrow_bump)->Ok_0;
            &&& after.dom().finite()
            &&& supply(after) == supply(accounts)
            &&& token_supply(after, mint) == token_supply(accounts, mint)
        }),
{
    let steps = a.plan_spec(accounts);
    lemma_cancel_order_plan(a, accounts, ctx, escrow_bump);
    lemma_steps_keep_supply(accounts, steps, 0);
    assert(spares_tokens(accounts, steps, 0, mint)) by {
        reveal_with_fuel(spares_tokens, 5);
        reveal_with_fuel(carry_out_from, 5);
    }
    lemma_steps_keep_token_supply(accounts, steps, 0, mint);
}

/// Executing an order under the custody rule changes the supply neither of
/// the native asset nor of any token: what the recipient and the escrow
/// held, the recipient and the funder hold.
pub proof fn lemma_execute_order_keeps_supply(
    a: ExecuteOrder,
    accounts: Map<Pubkey, Account>,
    ctx: Context,
    escrow_bump: u8,
    mint: Pubkey,
)
    requires
        accounts.dom().finite(),
        escrow_in_custody(accounts, a.order),
        a.process_spec(accounts, ctx, escrow_bump) is Ok,
    ensures
        ({
            let after = a.process_spec(accounts, ctx, escrow_bump)->Ok_0;
            &&& after.dom().finite()
            &&& supply(after) == supply(accounts)
            &&& token_supply(after, mint) == token_supply(accounts, mint)
        }),
{
    let steps = a.plan_spec(accounts);
    lemma_execute_order_plan(a, accounts, ctx, escrow_bump);
    lemma_steps_keep_supply(accounts, steps, 0);
    assert(spares_tokens(accounts, steps, 0, mint)) by {
        reveal_with_fuel(spares_tokens, 6);
        reveal_with_fuel(carry_out_from, 6);
    }
    lemma_steps_keep_token_supply(accounts, steps, 0, mint);
}

/// No instruction changes the supply of the native asset, whatever accounts
/// and message it is handed; and none changes the supply of a token, where
/// the order that it cancels or executes is under the custody rule.
pub proof fn lemma_instruction_keeps_supply(
    accounts: Map<Pubkey, Account>,
    ctx: Context,
    metas: Seq<AccountMeta>,
    data: Seq<u8>,
    mint: Pubkey,
)
    requires
        accounts.dom().finite(),
        process_instruction_spec(accounts, ctx, metas, data) is Ok,
    ensures
        ({
            let after = process_instruction_spec(accounts, ctx, metas, data)->Ok_0;
            &&& after.dom().finite()
            &&& supply(after) == supply(accounts)
            &&& OrderInstruction::spec_unpack(data)->Ok_0 is CreateOrder || escrow_in_custody(
                accounts,
                metas[0].pubkey,
            ) ==> token_supply(after, mint) == token_supply(accounts, mint)
        }),
{
    match OrderInstruction::spec_unpack(data) {
        Ok(
            OrderInstruction::CreateOrder {
                escrow_bump,
                base_amount,
                quote_amount,
                start_date,
                expire_date,
            },
        ) => {
            lemma_create_order_keeps_supply(
                CreateOrder::spec_from_account_metas(metas, ctx)->Ok_0,
                accounts,
                ctx,
                escrow_bump,
                base_amount,
                quote_amount,
                start_date,
                expire_date,
                mint,
            );
        },
        Ok(OrderInstruction::CancelOrder { escrow_bump }) => {
            let a = CancelOrder::spec_from_account_metas(metas, ctx)->Ok_0;
            lemma_cancel_order_plan(a, accounts, ctx, escrow_bump);
            lemma_steps_keep_supply(accounts, a.plan_spec(accounts), 0);
            if escrow_in_custody(accounts, metas[0].pubkey) {
                lemma_cancel_order_keeps_supply(a, accounts, ctx, escrow_bump, mint);
            }
        },
        Ok(OrderInstruction::ExecuteOrder { escrow_bump }) => {
            let a = ExecuteOrder::spec_from_account_metas(metas, ctx)->Ok_0;
            lemma_execute_order_plan(a, accounts, ctx, escrow_bump);
            lemma_steps_keep_supply(accounts, a.plan_spec(accounts), 0);
            if escrow_in_custody(accounts, metas[0].pubkey) {
                lemma_execute_order_keeps_supply(a, accounts, ctx, escrow_bump, mint);
            }
        },
        Err(_) => {},
    }
}

} // verus!
