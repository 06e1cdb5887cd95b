use p2swap::context::{CancelOrder, Context, CreateOrder, ExecuteOrder};
use p2swap::error::{ErrorCode, InstructionError, LedgerError};
use p2swap::instruction::{plan_instruction, OrderInstruction, ProgramIds};
use p2swap::ledger::{Account, AccountData, Ledger, TokenAccount};
use p2swap::plan::{store_order, Step};
use p2swap::pubkey::Pubkey;
use p2swap::state::{Order, OrderStatus};
use p2swap::utils::find_order_escrow_address;

const NOW: i64 = 1_650_000_000;

fn key(n: u8) -> Pubkey {
    Pubkey::new_from_array([n; 32])
}

fn context() -> Context {
    Context {
        program_id: key(200),
        token_program: key(201),
        unix_timestamp: NOW,
        order_rent: 2_519_520,
        native_escrow_rent: 953_520,
        token_escrow_rent: 2_039_280,
    }
}

fn wallet(lamports: u64) -> Account {
    Account { lamports, owner: Pubkey::system(), space: 0, data: AccountData::Empty }
}

fn token_account(mint: Pubkey, authority: Pubkey, amount: u64) -> Account {
    Account {
        lamports: 2_039_280,
        owner: key(201),
        space: 165,
        data: AccountData::Token(TokenAccount { mint, authority, amount }),
    }
}

fn same(a: &Ledger, b: &Ledger) -> bool {
    a.len() == b.len() && a.keys().iter().all(|k| a.get(k) == b.get(k))
}

fn carry_out(ledger: &mut Ledger, steps: &[Step]) {
    for step in steps {
        step.apply(ledger).unwrap();
    }
}

fn record(ledger: &Ledger, order: &Pubkey) -> Order {
    match ledger.get(order).unwrap().data {
        AccountData::Order(order) => order,
        _ => panic!("no order record"),
    }
}

#[test]
fn plan_of_a_native_swap() {
    let ctx = context();
    let (order, funder, recipient) = (key(1), key(2), key(3));
    let (escrow, bump) = find_order_escrow_address(&funder, &order, &ctx.program_id).unwrap();
    let mut ledger = Ledger::new();
    ledger.set(funder, wallet(1_000_000_000));
    ledger.set(recipient, wallet(1_000_000_000));
    let before = ledger.snapshot();

    let create = CreateOrder {
        order,
        funder,
        recipient,
        funder_token_account: funder,
        escrow,
        quote_token_account: funder,
        escrow_mint: Pubkey::system(),
        quote_mint: Pubkey::system(),
    };
    let steps = create.plan(&ledger, &ctx, bump, 1_000, 2_000, Some(NOW + 1), NOW + 10).unwrap();
    assert!(same(&ledger, &before));
    let expected = Order {
        status: OrderStatus::Created,
        base_amount: 1_000,
        quote_amount: 2_000,
        base_mint: Pubkey::system(),
        quote_mint: Pubkey::system(),
        funder,
        recipient,
        escrow,
        quote_token_account: funder,
        start_date: Some(NOW + 1),
        expire_date: NOW + 10,
    };
    assert_eq!(
        steps,
        vec![
            Step::CreateAccount {
                from: funder,
                to: order,
                lamports: 2_519_520,
                space: 234,
                owner: ctx.program_id,
            },
            Step::StoreOrder { account: order, order: expected },
            Step::CreateAccount {
                from: funder,
                to: escrow,
                lamports: 953_520,
                space: 9,
                owner: ctx.program_id,
            },
            Step::SystemTransfer { from: funder, to: escrow, lamports: 1_000 },
        ]
    );
    let mut by_steps = ledger.snapshot();
    carry_out(&mut by_steps, &steps);
    create.process(&mut ledger, &ctx, bump, 1_000, 2_000, Some(NOW + 1), NOW + 10).unwrap();
    assert!(same(&ledger, &by_steps));

    let execute = ExecuteOrder {
        order,
        funder,
        recipient,
        recipient_token_account: recipient,
        recipient_receive_token_account: recipient,
        escrow,
        quote_token_account: funder,
    };
    assert_eq!(
        execute.plan(&ledger, &ctx, bump),
        Err(InstructionError::Program(ErrorCode::OrderIsNotStarted))
    );
    let later = Context { unix_timestamp: NOW + 5, ..ctx };
    let steps = execute.plan(&ledger, &later, bump).unwrap();
    assert_eq!(
        steps,
        vec![
            Step::StoreOrder {
                account: order,
                order: Order { status: OrderStatus::Completed, ..expected },
            },
            Step::SystemTransfer { from: recipient, to: funder, lamports: 2_000 },
            Step::MoveLamports { src: escrow, dst: recipient, lamports: 1_000 },
            Step::DeleteAccount { target: escrow, receiver: funder },
        ]
    );
    let mut by_steps = ledger.snapshot();
    carry_out(&mut by_steps, &steps);

    let cancel = CancelOrder { order, funder, funder_token_account: funder, escrow };
    assert_eq!(
        cancel.plan(&ledger, &ctx, bump).unwrap(),
        vec![
            Step::StoreOrder {
                account: order,
                order: Order { status: OrderStatus::Canceled, ..expected },
            },
            Step::DeleteAccount { target: escrow, receiver: funder },
        ]
    );

    execute.process(&mut ledger, &later, bump).unwrap();
    assert!(same(&ledger, &by_steps));
    assert_eq!(record(&ledger, &order).status, OrderStatus::Completed);
    assert_eq!(
        cancel.plan(&ledger, &ctx, bump),
        Err(InstructionError::Program(ErrorCode::InvalidOrderStatus))
    );
}

#[test]
fn plan_of_a_token_swap() {
    let ctx = context();
    let (order, funder, recipient) = (key(1), key(2), key(3));
    let (base_mint, quote_mint) = (key(10), key(11));
    let (funder_base, funder_quote, recipient_base, recipient_quote) =
        (key(12), key(13), key(14), key(15));
    let (escrow, bump) = find_order_escrow_address(&funder, &order, &ctx.program_id).unwrap();
    let mut ledger = Ledger::new();
    ledger.set(funder, wallet(1_000_000_000));
    ledger.set(recipient, wallet(1_000_000_000));
    ledger.set(funder_base, token_account(base_mint, funder, 700));
    ledger.set(funder_quote, token_account(quote_mint, funder, 0));
    ledger.set(recipient_base, token_account(base_mint, recipient, 0));
    ledger.set(recipient_quote, token_account(quote_mint, recipient, 900));

    let create = CreateOrder {
        order,
        funder,
        recipient,
        funder_token_account: funder_base,
        escrow,
        quote_token_account: funder_quote,
        escrow_mint: base_mint,
        quote_mint,
    };
    let data = OrderInstruction::CreateOrder {
        escrow_bump: bump,
        base_amount: 500,
        quote_amount: 600,
        start_date: None,
        expire_date: NOW + 10,
    }
    .pack();
    let ids = ProgramIds {
        program_id: ctx.program_id,
        token_program: ctx.token_program,
        rent_sysvar: key(202),
        clock_sysvar: key(203),
    };
    let steps = plan_instruction(&ledger, &ctx, &create.to_account_metas(&ids), &data).unwrap();
    assert_eq!(steps.len(), 5);
    assert_eq!(
        steps[2..],
        [
            Step::CreateAccount {
                from: funder,
                to: escrow,
                lamports: 2_039_280,
                space: 165,
                owner: ctx.token_program,
            },
            Step::InitializeAccount { account: escrow, mint: base_mint, authority: escrow },
            Step::TokenTransfer { from: funder_base, to: escrow, authority: funder, amount: 500 },
        ]
    );
    carry_out(&mut ledger, &steps);
    assert_eq!(record(&ledger, &order).status, OrderStatus::Created);

    let cancel = CancelOrder { order, funder, funder_token_account: funder_base, escrow };
    let steps = cancel.plan(&ledger, &ctx, bump).unwrap();
    assert_eq!(
        steps[1..],
        [
            Step::TokenTransfer { from: escrow, to: funder_base, authority: escrow, amount: 500 },
            Step::CloseAccount { account: escrow, destination: funder, authority: escrow },
        ]
    );

    let execute = ExecuteOrder {
        order,
        funder,
        recipient,
        recipient_token_account: recipient_quote,
        recipient_receive_token_account: recipient_base,
        escrow,
        quote_token_account: funder_quote,
    };
    let data = OrderInstruction::ExecuteOrder { escrow_bump: bump }.pack();
    let steps = plan_instruction(&ledger, &ctx, &execute.to_account_metas(&ids), &data).unwrap();
    assert_eq!(
        steps[1..],
        [
            Step::TokenTransfer {
                from: recipient_quote,
                to: funder_quote,
                authority: recipient,
                amount: 600,
            },
            Step::TokenTransfer { from: escrow, to: recipient_base, authority: escrow, amount: 500 },
            Step::CloseAccount { account: escrow, destination: funder, authority: escrow },
        ]
    );
    let mut by_steps = ledger.snapshot();
    carry_out(&mut by_steps, &steps);
    execute.process(&mut ledger, &ctx, bump).unwrap();
    assert!(same(&ledger, &by_steps));
    assert_eq!(
        plan_instruction(&ledger, &ctx, &execute.to_account_metas(&ids), &[0; 9]),
        Err(InstructionError::UnknownInstruction)
    );
}

#[test]
fn steps_that_are_refused_change_nothing() {
    let mut ledger = Ledger::new();
    ledger.set(key(1), wallet(5));
    let order = Order {
        status: OrderStatus::Created,
        base_amount: 1,
        quote_amount: 2,
        base_mint: Pubkey::system(),
        quote_mint: Pubkey::system(),
        funder: key(2),
        recipient: key(3),
        escrow: key(4),
        quote_token_account: key(2),
        start_date: None,
        expire_date: 5,
    };
    assert_eq!(store_order(&mut ledger, &key(9), &order), Err(LedgerError::AccountNotFound));
    assert_eq!(
        Step::SystemTransfer { from: key(1), to: key(2), lamports: 6 }.apply(&mut ledger),
        Err(LedgerError::InsufficientFunds)
    );
    assert_eq!(ledger.len(), 1);
    assert_eq!(store_order(&mut ledger, &key(1), &order), Ok(()));
    assert_eq!(
        ledger.get(&key(1)),
        Some(Account { data: AccountData::Order(order), ..wallet(5) })
    );
}
