#![allow(dead_code, unused_imports)]

use p2swap::context::{CancelOrder, Context, CreateOrder, ExecuteOrder};
use p2swap::error::{ErrorCode, InstructionError, LedgerError};
use p2swap::ledger::{Account, AccountData, Ledger, TokenAccount};
use p2swap::pubkey::Pubkey;
use p2swap::state::{Order, OrderStatus};
use p2swap::utils::{find_order_escrow_address, ORDER_ESCROW_NATIVE_SIZE};

const NOW: i64 = 1_650_000_000;

fn key(n: u8) -> Pubkey {
    Pubkey::new_from_array([n; 32])
}

fn minimum_balance(space: u64) -> u64 {
    (128 + space) * 6960
}

fn context(unix_timestamp: i64) -> Context {
    Context {
        program_id: key(200),
        token_program: key(201),
        unix_timestamp,
        order_rent: minimum_balance(234),
        native_escrow_rent: minimum_balance(ORDER_ESCROW_NATIVE_SIZE as u64),
        token_escrow_rent: minimum_balance(165),
    }
}

fn airdrop(ledger: &mut Ledger, receiver: &Pubkey, amount: u64) {
    ledger.set(
        *receiver,
        Account { lamports: amount, owner: Pubkey::system(), space: 0, data: AccountData::Empty },
    );
}

fn create_token_account(ledger: &mut Ledger, account: &Pubkey, mint: &Pubkey, manager: &Pubkey) {
    ledger.set(
        *account,
        Account {
            lamports: minimum_balance(165),
            owner: key(201),
            space: 165,
            data: AccountData::Token(TokenAccount { mint: *mint, authority: *manager, amount: 0 }),
        },
    );
}

fn mint_to(ledger: &mut Ledger, to: &Pubkey, amount: u64) {
    let account = ledger.get(to).unwrap();
    let token = match account.data {
        AccountData::Token(token) => token,
        _ => panic!("not a token account"),
    };
    let data = AccountData::Token(TokenAccount { amount: token.amount + amount, ..token });
    ledger.set(*to, Account { data, ..account });
}

fn token_amount(ledger: &Ledger, account: &Pubkey) -> u64 {
    match ledger.get(account).unwrap().data {
        AccountData::Token(token) => token.amount,
        _ => panic!("not a token account"),
    }
}

fn order_record(ledger: &Ledger, order: &Pubkey) -> Order {
    match ledger.get(order).unwrap().data {
        AccountData::Order(order) => order,
        _ => panic!("no order record"),
    }
}

fn get_error_code(r: Result<(), InstructionError>) -> Option<u32> {
    match r {
        Err(InstructionError::Program(e)) => Some(e.code()),
        _ => None,
    }
}

fn native_accounts(order: Pubkey, funder: Pubkey, recipient: Pubkey, escrow: Pubkey) -> CreateOrder {
    CreateOrder {
        order,
        funder,
        recipient,
        funder_token_account: funder,
        escrow,
        quote_token_account: funder,
        escrow_mint: Pubkey::system(),
        quote_mint: Pubkey::system(),
    }
}

#[test]
fn create_order_success_native() {
    let ctx = context(NOW);
    let mut ledger = Ledger::new();

    let order = key(1);
    let funder = key(2);
    let recipient = key(3);

    let base_amount = 10 * 10u64.pow(9);
    let quote_amount = 11 * 10u64.pow(9);
    let expire_date = 9999999999;

    airdrop(&mut ledger, &funder, base_amount * 2);
    airdrop(&mut ledger, &recipient, quote_amount * 2);

    let (escrow, escrow_bump) =
        find_order_escrow_address(&funder, &order, &ctx.program_id).unwrap();

    let accounts = native_accounts(order, funder, recipient, escrow);

    accounts
        .process(&mut ledger, &ctx, escrow_bump, base_amount, quote_amount, None, expire_date)
        .unwrap();

    let escrow_account = ledger.get(&escrow).unwrap();
    let escrow_rent = minimum_balance(ORDER_ESCROW_NATIVE_SIZE as u64);
    assert_eq!(escrow_account.lamports, base_amount + escrow_rent);

    let order = order_record(&ledger, &order);
    assert_eq!(order.base_amount, base_amount);
    assert_eq!(order.quote_amount, quote_amount);
    assert_eq!(order.funder, funder);
    assert_eq!(order.recipient, recipient);
    assert_eq!(order.escrow, escrow);
    assert_eq!(order.quote_token_account, funder);
    assert!(order.start_date.is_none());
    assert!(order.is_base_native());
    assert!(order.is_quote_native());
    assert_eq!(order.expire_date, expire_date);
    assert_eq!(order.status, OrderStatus::Created);
}

#[test]
fn create_order_success_spl_token() {
    let ctx = context(NOW);
    let mut ledger = Ledger::new();

    let order = key(1);
    let funder = key(2);
    let recipient = key(3);

    let base_amount = 10 * 10u64.pow(9);
    let quote_amount = 11 * 10u64.pow(9);
    let expire_date = 9999999999;

    airdrop(&mut ledger, &funder, base_amount);
    airdrop(&mut ledger, &recipient, quote_amount);

    let funder_token_mint = key(10);
    let funder_token_account = key(11);

    create_token_account(&mut ledger, &funder_token_account, &funder_token_mint, &funder);
    mint_to(&mut ledger, &funder_token_account, base_amount);

    let (escrow, escrow_bump) =
        find_order_escrow_address(&funder, &order, &ctx.program_id).unwrap();

    let accounts = CreateOrder {
        order,
        funder,
        recipient,
        funder_token_account,
        escrow,
        quote_token_account: funder,
        escrow_mint: funder_token_mint,
        quote_mint: Pubkey::system(),
    };

    accounts
        .process(&mut ledger, &ctx, escrow_bump, base_amount, quote_amount, None, expire_date)
        .unwrap();

    assert_eq!(token_amount(&ledger, &escrow), base_amount);

    let order = order_record(&ledger, &order);
    assert_eq!(order.base_amount, base_amount);
    assert_eq!(order.quote_amount, quote_amount);
    assert_eq!(order.funder, funder);
    assert_eq!(order.recipient, recipient);
    assert_eq!(order.escrow, escrow);
    assert_eq!(order.quote_token_account, funder);
    assert!(order.start_date.is_none());
    assert!(!order.is_base_native());
    assert!(order.is_quote_native());
    assert_eq!(order.expire_date, expire_date);
    assert_eq!(order.status, OrderStatus::Created);
}

#[test]
fn create_order_fail_funder_account_wallet_mismatch() {
    let ctx = context(NOW);
    let mut ledger = Ledger::new();

    let order = key(1);
    let funder = key(2);
    let recipient = key(3);

    let base_amount = 10 * 10u64.pow(9);
    let quote_amount = 11 * 10u64.pow(9);
    let expire_date = 9999999999;

    airdrop(&mut ledger, &funder, base_amount * 2);
    airdrop(&mut ledger, &recipient, quote_amount * 2);

    let (escrow, escrow_bump) =
        find_order_escrow_address(&funder, &order, &ctx.program_id).unwrap();

    let accounts = CreateOrder {
        funder_token_account: recipient,
        ..native_accounts(order, funder, recipient, escrow)
    };

    let error =
        accounts.process(&mut ledger, &ctx, escrow_bump, base_amount, quote_amount, None, expire_date);
    assert!(error.is_err());
    let error_code = get_error_code(error);
    if let Some(error_code) = error_code {
        if error_code == 6001 {
            assert_eq!(true, true);
            return;
        }
    }
    assert_eq!(true, false);
}

#[test]
fn fail_start_date_in_the_past() {
    let ctx = context(NOW);
    let mut ledger = Ledger::new();

    let order = key(1);
    let funder = key(2);
    let recipient = key(3);

    let base_amount = 10 * 10u64.pow(9);
    let quote_amount = 11 * 10u64.pow(9);
    let start_date = 0;
    let expire_date = 9999999999;

    airdrop(&mut ledger, &funder, base_amount * 2);
    airdrop(&mut ledger, &recipient, quote_amount * 2);

    let (escrow, escrow_bump) =
        find_order_escrow_address(&funder, &order, &ctx.program_id).unwrap();

    let accounts = native_accounts(order, funder, recipient, escrow);

    let error = accounts.process(
        &mut ledger,
        &ctx,
        escrow_bump,
        base_amount,
        quote_amount,
        Some(start_date),
        expire_date,
    );
    assert!(error.is_err());
    let error_code = get_error_code(error);
    if let Some(error_code) = error_code {
        if error_code == 6007 {
            assert_eq!(true, true);
            return;
        }
    }
    assert_eq!(true, false);
}

#[test]
fn fail_quote_account_wallet_mismatch() {
    let ctx = context(NOW);
    let mut ledger = Ledger::new();

    let order = key(1);
    let funder = key(2);
    let recipient = key(3);

    let base_amount = 10 * 10u64.pow(9);
    let quote_amount = 11 * 10u64.pow(9);
    let expire_date = 9999999999;

    airdrop(&mut ledger, &funder, base_amount * 2);
    airdrop(&mut ledger, &recipient, quote_amount * 2);

    let (escrow, escrow_bump) =
        find_order_escrow_address(&funder, &order, &ctx.program_id).unwrap();

    let accounts = CreateOrder {
        quote_token_account: recipient,
        ..native_accounts(order, funder, recipient, escrow)
    };

    let error =
        accounts.process(&mut ledger, &ctx, escrow_bump, base_amount, quote_amount, None, expire_date);
    assert!(error.is_err());
    let error_code = get_error_code(error);
    if let Some(error_code) = error_code {
        if error_code == 6000 {
            assert_eq!(true, true);
            return;
        }
    }
    assert_eq!(true, false);
}

#[test]
fn fail_expire_date_in_the_past() {
    let ctx = context(NOW);
    let mut ledger = Ledger::new();

    let order = key(1);
    let funder = key(2);
    let recipient = key(3);

    let base_amount = 10 * 10u64.pow(9);
    let quote_amount = 11 * 10u64.pow(9);
    let expire_date = 0;

    airdrop(&mut ledger, &funder, base_amount * 2);
    airdrop(&mut ledger, &recipient, quote_amount * 2);

    let (escrow, escrow_bump) =
        find_order_escrow_address(&funder, &order, &ctx.program_id).unwrap();

    let accounts = native_accounts(order, funder, recipient, escrow);

    let error =
        accounts.process(&mut ledger, &ctx, escrow_bump, base_amount, quote_amount, None, expire_date);
    assert!(error.is_err());
    let error_code = get_error_code(error);
    if let Some(error_code) = error_code {
        if error_code == 6006 {
            assert_eq!(true, true);
            return;
        }
    }
    assert_eq!(true, false);
}

#[test]
fn create_order_pays_exact_amounts() {
    let ctx = context(NOW);
    let mut ledger = Ledger::new();
    let (order, funder, recipient) = (key(1), key(2), key(3));
    airdrop(&mut ledger, &funder, 5_000_000_000);
    let (escrow, bump) = find_order_escrow_address(&funder, &order, &ctx.program_id).unwrap();
    let accounts = native_accounts(order, funder, recipient, escrow);
    accounts.process(&mut ledger, &ctx, bump, 1_000_000_000, 7, Some(NOW), NOW + 1).unwrap();
    // 362 * 6960 for the record, 137 * 6960 for the escrow, and the base amount
    assert_eq!(ledger.get(&order).unwrap().lamports, 2_519_520);
    assert_eq!(ledger.get(&order).unwrap().space, 234);
    assert_eq!(ledger.get(&order).unwrap().owner, ctx.program_id);
    assert_eq!(
        ledger.get(&escrow).unwrap(),
        Account {
            lamports: 1_000_953_520,
            owner: ctx.program_id,
            space: 9,
            data: AccountData::Empty,
        }
    );
    assert_eq!(ledger.get(&funder).unwrap().lamports, 5_000_000_000 - 2_519_520 - 1_000_953_520);
    assert_eq!(ledger.len(), 3);
    assert_eq!(order_record(&ledger, &order).start_date, Some(NOW));
}

#[test]
fn create_order_token_escrow_is_its_own_authority() {
    let ctx = context(NOW);
    let mut ledger = Ledger::new();
    let (order, funder, recipient, mint, source) = (key(1), key(2), key(3), key(10), key(11));
    airdrop(&mut ledger, &funder, 10_000_000);
    create_token_account(&mut ledger, &source, &mint, &funder);
    mint_to(&mut ledger, &source, 500);
    let (escrow, bump) = find_order_escrow_address(&funder, &order, &ctx.program_id).unwrap();
    let accounts = CreateOrder {
        order,
        funder,
        recipient,
        funder_token_account: source,
        escrow,
        quote_token_account: key(12),
        escrow_mint: mint,
        quote_mint: key(13),
    };
    accounts.process(&mut ledger, &ctx, bump, 300, 9, None, NOW + 10).unwrap();
    assert_eq!(
        ledger.get(&escrow).unwrap(),
        Account {
            lamports: 2_039_280,
            owner: ctx.token_program,
            space: 165,
            data: AccountData::Token(TokenAccount { mint, authority: escrow, amount: 300 }),
        }
    );
    assert_eq!(token_amount(&ledger, &source), 200);
    assert_eq!(ledger.get(&funder).unwrap().lamports, 10_000_000 - 2_519_520 - 2_039_280);
}

#[test]
fn create_order_rejects_wrong_bump_or_escrow() {
    let ctx = context(NOW);
    let mut ledger = Ledger::new();
    let (order, funder, recipient) = (key(1), key(2), key(3));
    airdrop(&mut ledger, &funder, 5_000_000_000);
    let (escrow, bump) = find_order_escrow_address(&funder, &order, &ctx.program_id).unwrap();
    let accounts = native_accounts(order, funder, recipient, escrow);
    let r = accounts.process(&mut ledger, &ctx, bump.wrapping_sub(1), 10, 10, None, NOW + 1);
    assert_eq!(r, Err(InstructionError::EscrowMismatch));
    let wrong = native_accounts(order, funder, recipient, key(77));
    let r = wrong.process(&mut ledger, &ctx, bump, 10, 10, None, NOW + 1);
    assert_eq!(r, Err(InstructionError::EscrowMismatch));
    assert_eq!(ledger.len(), 1);
    assert_eq!(ledger.get(&funder).unwrap().lamports, 5_000_000_000);
}

#[test]
fn create_order_leaves_nothing_behind_on_failure() {
    let ctx = context(NOW);
    let mut ledger = Ledger::new();
    let (order, funder, recipient) = (key(1), key(2), key(3));
    airdrop(&mut ledger, &funder, 5_000_000_000);
    let (escrow, bump) = find_order_escrow_address(&funder, &order, &ctx.program_id).unwrap();
    let accounts = native_accounts(order, funder, recipient, escrow);
    // the dates are judged after the escrow is funded
    let r = accounts.process(&mut ledger, &ctx, bump, 10, 10, Some(NOW + 5), NOW + 5);
    assert_eq!(r, Err(InstructionError::Program(ErrorCode::ExpireDateInThePast)));
    assert!(!ledger.contains(&order));
    assert!(!ledger.contains(&escrow));
    assert_eq!(ledger.get(&funder).unwrap().lamports, 5_000_000_000);
    assert_eq!(ledger.len(), 1);
}

#[test]
fn create_order_needs_funds_and_a_new_order_account() {
    let ctx = context(NOW);
    let mut ledger = Ledger::new();
    let (order, funder, recipient) = (key(1), key(2), key(3));
    let (escrow, bump) = find_order_escrow_address(&funder, &order, &ctx.program_id).unwrap();
    let accounts = native_accounts(order, funder, recipient, escrow);
    let r = accounts.process(&mut ledger, &ctx, bump, 10, 10, None, NOW + 1);
    assert_eq!(r, Err(InstructionError::Ledger(LedgerError::AccountNotFound)));
    airdrop(&mut ledger, &funder, 2_519_520 + 953_520 + 9);
    let r = accounts.process(&mut ledger, &ctx, bump, 10, 10, None, NOW + 1);
    assert_eq!(r, Err(InstructionError::Ledger(LedgerError::InsufficientFunds)));
    airdrop(&mut ledger, &funder, 2_519_520 + 953_520 + 10);
    accounts.process(&mut ledger, &ctx, bump, 10, 10, None, NOW + 1).unwrap();
    assert_eq!(ledger.get(&funder).unwrap().lamports, 0);
    airdrop(&mut ledger, &funder, 1_000_000_000);
    let r = accounts.process(&mut ledger, &ctx, bump, 10, 10, None, NOW + 1);
    assert_eq!(r, Err(InstructionError::Ledger(LedgerError::AccountAlreadyInUse)));
    assert_eq!(order_record(&ledger, &order).status, OrderStatus::Created);
}

#[test]
fn create_order_errors_come_in_the_order_of_the_steps() {
    let ctx = context(NOW);
    let mut ledger = Ledger::new();
    let (order, funder, recipient) = (key(1), key(2), key(3));
    airdrop(&mut ledger, &funder, 5_000_000_000);
    let (escrow, bump) = find_order_escrow_address(&funder, &order, &ctx.program_id).unwrap();
    // wrong paying account, wrong quote account and dates in the past at once
    let accounts = CreateOrder {
        funder_token_account: recipient,
        quote_token_account: recipient,
        ..native_accounts(order, funder, recipient, escrow)
    };
    let r = accounts.process(&mut ledger, &ctx, bump, 10, 10, Some(0), 0);
    assert_eq!(get_error_code(r), Some(6001));
    let accounts = CreateOrder {
        quote_token_account: recipient,
        ..native_accounts(order, funder, recipient, escrow)
    };
    let r = accounts.process(&mut ledger, &ctx, bump, 10, 10, Some(0), 0);
    assert_eq!(get_error_code(r), Some(6000));
    let accounts = native_accounts(order, funder, recipient, escrow);
    let r = accounts.process(&mut ledger, &ctx, bump, 10, 10, Some(0), 0);
    assert_eq!(get_error_code(r), Some(6006));
    let r = accounts.process(&mut ledger, &ctx, bump, 10, 10, Some(NOW - 1), NOW + 1);
    assert_eq!(get_error_code(r), Some(6007));
    let r = accounts.process(&mut ledger, &ctx, bump, 10, 10, Some(NOW + 1), NOW + 1);
    assert_eq!(get_error_code(r), Some(6006));
    let r = accounts.process(&mut ledger, &ctx, bump, 10, 10, Some(NOW), NOW);
    assert_eq!(get_error_code(r), Some(6006));
}
