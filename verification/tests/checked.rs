use p2swap::client::{cancel_order_with, create_order_with, execute_order_with};
use p2swap::context::{CancelOrder, Context, CreateOrder, ExecuteOrder};
use p2swap::error::{ErrorCode, InstructionError};
use p2swap::instruction::{OrderInstruction, ProgramIds};
use p2swap::ledger::{Account, AccountData, Ledger};
use p2swap::pubkey::Pubkey;
use p2swap::state::OrderStatus;

const NOW: i64 = 1_650_000_000;

fn key(n: u8) -> Pubkey {
    Pubkey::new_from_array([n; 32])
}

fn context() -> Context {
    Context {
        program_id: key(200),
        token_program: key(201),
        unix_timestamp: NOW,
        order_rent: 10,
        native_escrow_rent: 20,
        token_escrow_rent: 30,
    }
}

fn wallet(lamports: u64) -> Account {
    Account { lamports, owner: Pubkey::system(), space: 0, data: AccountData::Empty }
}

fn status(ledger: &Ledger, order: &Pubkey) -> OrderStatus {
    match ledger.get(order).unwrap().data {
        AccountData::Order(order) => order.status,
        _ => panic!("no order record"),
    }
}

#[test]
fn instructions_with_the_outcome_of_the_derivation_handed_in() {
    let ctx = context();
    let (order, funder, recipient, escrow) = (key(1), key(2), key(3), key(4));
    let mut ledger = Ledger::new();
    ledger.set(funder, wallet(5_000));
    ledger.set(recipient, wallet(7_000));
    let create = CreateOrder {
        order,
        funder,
        recipient,
        funder_token_account: funder,
        escrow,
        quote_token_account: funder,
        escrow_mint: Pubkey::system(),
        quote_mint: Pubkey::system(),
    };
    assert_eq!(
        create.process_with(&mut ledger, &ctx, false, 1_000, 2_000, None, NOW + 1),
        Err(InstructionError::EscrowMismatch)
    );
    assert_eq!(ledger.len(), 2);
    // the escrow is no derived address, so the bump cannot be right
    assert_eq!(
        create.process(&mut ledger, &ctx, 255, 1_000, 2_000, None, NOW + 1),
        Err(InstructionError::EscrowMismatch)
    );
    assert_eq!(create.process_with(&mut ledger, &ctx, true, 1_000, 2_000, None, NOW + 1), Ok(()));
    assert_eq!(ledger.get(&escrow).unwrap().lamports, 1_020);
    assert_eq!(ledger.get(&funder).unwrap().lamports, 5_000 - 10 - 20 - 1_000);

    let execute = ExecuteOrder {
        order,
        funder,
        recipient,
        recipient_token_account: recipient,
        recipient_receive_token_account: recipient,
        escrow,
        quote_token_account: funder,
    };
    assert_eq!(
        execute.process_with(&mut ledger, &ctx, false),
        Err(InstructionError::EscrowMismatch)
    );
    assert_eq!(
        execute.process_with(&mut ledger, &Context { unix_timestamp: NOW + 2, ..ctx }, true),
        Err(InstructionError::Program(ErrorCode::OrderIsExpired))
    );
    assert_eq!(status(&ledger, &order), OrderStatus::Created);
    assert_eq!(execute.process_with(&mut ledger, &Context { unix_timestamp: NOW + 1, ..ctx }, true), Ok(()));
    assert_eq!(status(&ledger, &order), OrderStatus::Completed);
    assert_eq!(ledger.get(&recipient).unwrap().lamports, 7_000 - 2_000 + 1_000);
    assert_eq!(ledger.get(&funder).unwrap().lamports, 3_970 + 2_000 + 20);
    assert!(!ledger.contains(&escrow));

    let cancel = CancelOrder { order, funder, funder_token_account: funder, escrow };
    assert_eq!(
        cancel.process_with(&mut ledger, &ctx, true),
        Err(InstructionError::Program(ErrorCode::InvalidOrderStatus))
    );
    assert_eq!(cancel.process_with(&mut ledger, &ctx, false), Err(InstructionError::EscrowMismatch));

    let order = key(5);
    let create = CreateOrder { order, ..create };
    create.process_with(&mut ledger, &ctx, true, 500, 0, None, NOW + 1).unwrap();
    let cancel = CancelOrder { order, funder, funder_token_account: funder, escrow };
    let before = ledger.get(&funder).unwrap().lamports;
    assert_eq!(cancel.process_with(&mut ledger, &ctx, true), Ok(()));
    assert_eq!(status(&ledger, &order), OrderStatus::Canceled);
    assert_eq!(ledger.get(&funder).unwrap().lamports, before + 520);
}

#[test]
fn instructions_are_built_around_a_found_escrow() {
    let ids = ProgramIds {
        program_id: key(200),
        token_program: key(201),
        rent_sysvar: key(202),
        clock_sysvar: key(203),
    };
    let create = CreateOrder {
        order: key(1),
        funder: key(2),
        recipient: key(3),
        funder_token_account: key(4),
        escrow: key(5),
        quote_token_account: key(6),
        escrow_mint: key(7),
        quote_mint: key(8),
    };
    let built = create_order_with(&ids, &create, 9, 10, 11, Some(12), 13);
    assert_eq!(built.program_id, key(200));
    assert_eq!(built.accounts, create.to_account_metas(&ids));
    assert_eq!(
        OrderInstruction::unpack(&built.data),
        Ok(OrderInstruction::CreateOrder {
            escrow_bump: 9,
            base_amount: 10,
            quote_amount: 11,
            start_date: Some(12),
            expire_date: 13,
        })
    );
    let cancel =
        CancelOrder { order: key(1), funder: key(2), funder_token_account: key(4), escrow: key(5) };
    let built = cancel_order_with(&ids, &cancel, 9);
    assert_eq!(built.program_id, key(200));
    assert_eq!(built.accounts, cancel.to_account_metas(&ids));
    assert_eq!(built.data, vec![95, 129, 237, 240, 8, 49, 223, 132, 9]);
    let execute = ExecuteOrder {
        order: key(1),
        funder: key(2),
        recipient: key(3),
        recipient_token_account: key(4),
        recipient_receive_token_account: key(5),
        escrow: key(6),
        quote_token_account: key(7),
    };
    let built = execute_order_with(&ids, &execute, 9);
    assert_eq!(built.program_id, key(200));
    assert_eq!(built.accounts, execute.to_account_metas(&ids));
    assert_eq!(built.data, vec![115, 61, 180, 24, 168, 32, 215, 20, 9]);
}

#[test]
fn a_record_that_the_program_does_not_own_is_no_order() {
    let ctx = context();
    let (order, funder, recipient, escrow) = (key(1), key(2), key(3), key(4));
    let mut ledger = Ledger::new();
    ledger.set(funder, wallet(5_000));
    ledger.set(recipient, wallet(7_000));
    let create = CreateOrder {
        order,
        funder,
        recipient,
        funder_token_account: funder,
        escrow,
        quote_token_account: funder,
        escrow_mint: Pubkey::system(),
        quote_mint: Pubkey::system(),
    };
    create.process_with(&mut ledger, &ctx, true, 1_000, 2_000, None, NOW + 1).unwrap();
    let written = ledger.get(&order).unwrap();
    assert_eq!(written.owner, ctx.program_id);
    ledger.set(order, Account { owner: key(9), ..written });

    let cancel = CancelOrder { order, funder, funder_token_account: funder, escrow };
    assert_eq!(cancel.process_with(&mut ledger, &ctx, true), Err(InstructionError::OrderNotFound));
    let execute = ExecuteOrder {
        order,
        funder,
        recipient,
        recipient_token_account: recipient,
        recipient_receive_token_account: recipient,
        escrow,
        quote_token_account: funder,
    };
    assert_eq!(execute.process_with(&mut ledger, &ctx, true), Err(InstructionError::OrderNotFound));
    assert_eq!(ledger.get(&escrow).unwrap().lamports, 1_020);

    ledger.set(order, written);
    assert_eq!(cancel.process_with(&mut ledger, &ctx, true), Ok(()));
}
