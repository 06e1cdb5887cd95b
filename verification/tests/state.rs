use p2swap::pubkey::Pubkey;
use p2swap::state::{Order, OrderStatus, FUNDER_OFFSET, ORDER_TAG, STATUS_OFFSET};

fn key(n: u8) -> Pubkey {
    Pubkey::new_from_array([n; 32])
}

fn order(status: OrderStatus, start_date: Option<i64>) -> Order {
    Order {
        status,
        base_amount: 10 * 10u64.pow(9),
        quote_amount: 0x0102030405060708,
        base_mint: Pubkey::system(),
        quote_mint: key(12),
        funder: key(2),
        recipient: key(3),
        escrow: key(4),
        quote_token_account: key(5),
        start_date,
        expire_date: -2,
    }
}

fn expected_bytes(o: &Order, tag: u8) -> Vec<u8> {
    let mut bytes = vec![134, 173, 223, 185, 77, 86, 28, 51, tag];
    bytes.extend_from_slice(&o.base_amount.to_le_bytes());
    bytes.extend_from_slice(&o.quote_amount.to_le_bytes());
    for k in [o.base_mint, o.quote_mint, o.funder, o.recipient, o.escrow, o.quote_token_account] {
        bytes.extend_from_slice(&k.to_bytes());
    }
    match o.start_date {
        Some(d) => {
            bytes.push(1);
            bytes.extend_from_slice(&d.to_le_bytes());
        }
        None => bytes.push(0),
    }
    bytes.extend_from_slice(&o.expire_date.to_le_bytes());
    bytes.resize(234, 0);
    bytes
}

#[test]
fn order_record_takes_234_bytes() {
    assert_eq!(Order::LEN, 234);
    assert_eq!(STATUS_OFFSET, 8);
    assert_eq!(FUNDER_OFFSET, 89);
    assert_eq!(order(OrderStatus::Created, None).pack().len(), 234);
    assert_eq!(order(OrderStatus::Created, Some(5)).pack().len(), 234);
}

#[test]
fn order_tag_is_the_hash_of_the_record_name() {
    let hash = solana_sdk::hash::hash(b"account:Order").to_bytes();
    assert_eq!(ORDER_TAG, hash[..8]);
}

#[test]
fn order_pack_lays_the_fields_out() {
    for (status, tag) in
        [(OrderStatus::Created, 0), (OrderStatus::Canceled, 1), (OrderStatus::Completed, 2)]
    {
        assert_eq!(status.tag(), tag);
        assert_eq!(OrderStatus::from_tag(tag), Some(status));
        for start_date in [None, Some(0), Some(1_650_000_000), Some(i64::MIN)] {
            let o = order(status, start_date);
            let bytes = o.pack();
            assert_eq!(bytes, expected_bytes(&o, tag));
            assert_eq!(bytes[STATUS_OFFSET], tag);
            assert_eq!(bytes[FUNDER_OFFSET..FUNDER_OFFSET + 32], [2u8; 32]);
        }
    }
    assert_eq!(OrderStatus::from_tag(3), None);
    assert_eq!(OrderStatus::from_tag(255), None);
    let bytes = order(OrderStatus::Created, None).pack();
    assert_eq!(bytes[9..17], [0, 228, 11, 84, 2, 0, 0, 0]);
    assert_eq!(bytes[17..25], [8, 7, 6, 5, 4, 3, 2, 1]);
    assert_eq!(bytes[218..226], [254, 255, 255, 255, 255, 255, 255, 255]);
    assert_eq!(bytes[226..234], [0; 8]);
}

#[test]
fn order_unpack_reads_what_pack_wrote() {
    for status in [OrderStatus::Created, OrderStatus::Canceled, OrderStatus::Completed] {
        for start_date in [None, Some(-1), Some(i64::MAX)] {
            let o = order(status, start_date);
            assert_eq!(Order::unpack(&o.pack()), Some(o));
            assert_eq!(Order::unpack_unchecked(&o.pack()), Some(o));
        }
    }
}

#[test]
fn order_unpack_refuses_bad_bytes() {
    let o = order(OrderStatus::Canceled, Some(7));
    let good = o.pack();
    assert_eq!(Order::unpack(&[]), None);
    assert_eq!(Order::unpack_unchecked(&[]), None);
    assert_eq!(Order::unpack_unchecked(&good[..233]), None);
    assert_eq!(Order::unpack(&good[..233]), None);
    // what follows the record is not looked at
    let mut long = good.clone();
    long.extend_from_slice(&[9, 9, 9]);
    assert_eq!(Order::unpack(&long), Some(o));
    // a record without a start date ends eight bytes earlier
    let short = order(OrderStatus::Created, None);
    assert_eq!(Order::unpack(&short.pack()[..226]), Some(short));
    assert_eq!(Order::unpack(&short.pack()[..225]), None);
    // another tag
    let mut other = good.clone();
    other[0] ^= 1;
    assert_eq!(Order::unpack(&other), None);
    assert_eq!(Order::unpack_unchecked(&other), Some(o));
    let mut other = good.clone();
    other[7] ^= 1;
    assert_eq!(Order::unpack(&other), None);
    // a status that is never written
    let mut bad = good.clone();
    bad[8] = 3;
    assert_eq!(Order::unpack(&bad), None);
    assert_eq!(Order::unpack_unchecked(&bad), None);
    // a mark of the start date that is never written
    let mut bad = good.clone();
    bad[217] = 2;
    assert_eq!(Order::unpack(&bad), None);
}

#[test]
fn order_status_is_terminal_once_it_left_created() {
    assert!(!OrderStatus::Created.is_terminal());
    assert!(OrderStatus::Canceled.is_terminal());
    assert!(OrderStatus::Completed.is_terminal());
    assert!(order(OrderStatus::Created, None).is_base_native());
    assert!(!order(OrderStatus::Created, None).is_quote_native());
}
