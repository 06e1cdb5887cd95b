use anchor_lang::prelude::borsh;
use p2swap::instruction::OrderInstruction;
use p2swap::pubkey::Pubkey;
use p2swap::state::{Order, OrderStatus};

fn key(n: u8) -> Pubkey {
    Pubkey::new_from_array([n; 32])
}

#[test]
fn order_record_is_laid_out_as_borsh_lays_its_fields_out() {
    for (status, tag) in
        [(OrderStatus::Created, 0u8), (OrderStatus::Canceled, 1), (OrderStatus::Completed, 2)]
    {
        for start_date in [None, Some(1_650_000_000i64), Some(-7)] {
            let order = Order {
                status,
                base_amount: 10 * 10u64.pow(9),
                quote_amount: u64::MAX - 3,
                base_mint: Pubkey::system(),
                quote_mint: key(12),
                funder: key(2),
                recipient: key(3),
                escrow: key(4),
                quote_token_account: key(5),
                start_date,
                expire_date: 9999999999,
            };
            let fields = borsh::to_vec(&(
                tag,
                order.base_amount,
                order.quote_amount,
                order.base_mint.to_bytes(),
                order.quote_mint.to_bytes(),
                order.funder.to_bytes(),
                order.recipient.to_bytes(),
                order.escrow.to_bytes(),
                order.quote_token_account.to_bytes(),
                order.start_date,
                order.expire_date,
            ))
            .unwrap();
            let stored = order.pack();
            assert_eq!(stored.len(), Order::LEN);
            assert_eq!(stored[8..8 + fields.len()], fields[..]);
            assert!(stored[8 + fields.len()..].iter().all(|b| *b == 0));
            let read: (u8, u64, u64, [u8; 32], [u8; 32], [u8; 32], [u8; 32], [u8; 32], [u8; 32], Option<i64>, i64) =
                borsh::BorshDeserialize::deserialize(&mut &stored[8..]).unwrap();
            assert_eq!(read.0, tag);
            assert_eq!(read.9, order.start_date);
            assert_eq!(read.10, order.expire_date);
            assert_eq!(Order::unpack(&stored), Some(order));
        }
    }
}

#[test]
fn instruction_arguments_are_laid_out_as_borsh_lays_them_out() {
    for start_date in [None, Some(0i64), Some(i64::MIN)] {
        let arguments = (254u8, 10 * 10u64.pow(9), 11 * 10u64.pow(9), start_date, 9999999999i64);
        let message = OrderInstruction::CreateOrder {
            escrow_bump: arguments.0,
            base_amount: arguments.1,
            quote_amount: arguments.2,
            start_date: arguments.3,
            expire_date: arguments.4,
        }
        .pack();
        assert_eq!(message[8..], borsh::to_vec(&arguments).unwrap()[..]);
    }
    assert_eq!(
        OrderInstruction::CancelOrder { escrow_bump: 3 }.pack()[8..],
        borsh::to_vec(&3u8).unwrap()[..]
    );
    assert_eq!(
        OrderInstruction::ExecuteOrder { escrow_bump: 4 }.pack()[8..],
        borsh::to_vec(&4u8).unwrap()[..]
    );
}
