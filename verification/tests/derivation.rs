use p2swap::pubkey::{Pubkey, PUBKEY_BYTES};
use p2swap::token::token_account_len;
use p2swap::utils::{
    find_order_escrow_address, is_order_escrow, order_escrow_address, ORDER_ESCROW_NATIVE_SIZE,
    ORDER_ESCROW_PREFIX,
};

fn key(n: u8) -> Pubkey {
    Pubkey::new_from_array([n; 32])
}

fn outside(k: &Pubkey) -> anchor_lang::prelude::Pubkey {
    anchor_lang::prelude::Pubkey::new_from_array(k.to_bytes())
}

#[test]
fn escrow_address_is_the_program_derived_address() {
    let (funder, order, program) = (key(2), key(1), key(200));
    let (escrow, bump) = find_order_escrow_address(&funder, &order, &program).unwrap();
    let (expected, expected_bump) = anchor_lang::prelude::Pubkey::find_program_address(
        &[b"p2s_order_escrow", &funder.to_bytes(), &order.to_bytes()],
        &outside(&program),
    );
    assert_eq!(escrow.to_bytes(), expected.to_bytes());
    assert_eq!(bump, expected_bump);
    assert!(bump >= 1);
    assert_ne!(escrow, funder);
    assert_ne!(escrow, order);
    assert_ne!(escrow, program);
}

#[test]
fn escrow_address_depends_on_each_seed_and_on_the_program() {
    let (funder, order, program) = (key(2), key(1), key(200));
    let (escrow, _) = find_order_escrow_address(&funder, &order, &program).unwrap();
    let (other_order, _) = find_order_escrow_address(&funder, &key(3), &program).unwrap();
    let (other_funder, _) = find_order_escrow_address(&key(3), &order, &program).unwrap();
    let (other_program, _) = find_order_escrow_address(&funder, &order, &key(201)).unwrap();
    let (swapped, _) = find_order_escrow_address(&order, &funder, &program).unwrap();
    assert_ne!(escrow, other_order);
    assert_ne!(escrow, other_funder);
    assert_ne!(escrow, other_program);
    assert_ne!(escrow, swapped);
    // the same seeds give the same address
    assert_eq!(find_order_escrow_address(&funder, &order, &program).unwrap().0, escrow);
}

#[test]
fn found_bump_derives_the_found_address_and_larger_bumps_none() {
    let (funder, order, program) = (key(9), key(8), key(7));
    let (escrow, bump) = find_order_escrow_address(&funder, &order, &program).unwrap();
    assert_eq!(order_escrow_address(&funder, &order, bump, &program), Some(escrow));
    assert!(is_order_escrow(&escrow, &funder, &order, bump, &program));
    for larger in (bump as u16 + 1)..=255 {
        assert_eq!(order_escrow_address(&funder, &order, larger as u8, &program), None);
        assert!(!is_order_escrow(&escrow, &funder, &order, larger as u8, &program));
    }
    assert!(!is_order_escrow(&funder, &funder, &order, bump, &program));
    assert!(!is_order_escrow(&escrow, &order, &funder, bump, &program));
}

#[test]
fn derivation_for_one_bump_matches_the_outside_derivation() {
    let (funder, order, program) = (key(2), key(1), key(200));
    let mut some = 0;
    let mut none = 0;
    for bump in 0..=255u8 {
        let expected = anchor_lang::prelude::Pubkey::create_program_address(
            &[ORDER_ESCROW_PREFIX.as_bytes(), &funder.to_bytes(), &order.to_bytes(), &[bump]],
            &outside(&program),
        )
        .ok()
        .map(|k| k.to_bytes());
        let got = order_escrow_address(&funder, &order, bump, &program).map(|k| k.to_bytes());
        assert_eq!(got, expected);
        if got.is_some() {
            some += 1;
        } else {
            none += 1;
        }
    }
    // about half of all hashes lie on the curve
    assert!(some > 64 && none > 64);
}

#[test]
fn system_program_is_the_all_zero_address() {
    assert_eq!(Pubkey::system().to_bytes(), [0u8; 32]);
    assert!(Pubkey::system().is_system());
    assert!(Pubkey::new_from_array([0u8; 32]).is_system());
    assert!(!key(1).is_system());
    let mut almost = [0u8; 32];
    almost[31] = 1;
    assert!(!Pubkey::new_from_array(almost).is_system());
    assert_eq!(
        bs58::encode(Pubkey::system().to_bytes()).into_string(),
        "11111111111111111111111111111111"
    );
}

#[test]
fn pubkey_equality_looks_at_every_byte() {
    let a = key(5);
    for i in 0..32 {
        let mut bytes = [5u8; 32];
        bytes[i] = 6;
        assert_ne!(Pubkey::new_from_array(bytes), a);
    }
    assert_eq!(Pubkey::new_from_array([5u8; 32]), a);
    assert_eq!(PUBKEY_BYTES, 32);
}

#[test]
fn sizes_of_the_two_kinds_of_escrow() {
    assert_eq!(ORDER_ESCROW_NATIVE_SIZE, 9);
    assert_eq!(token_account_len(), 165);
    assert_eq!(ORDER_ESCROW_PREFIX, "p2s_order_escrow");
}

#[test]
fn escrow_address_is_the_hash_of_the_seeds_and_the_program() {
    let (funder, order, program) = (key(2), key(1), key(200));
    let (escrow, bump) = find_order_escrow_address(&funder, &order, &program).unwrap();
    let hash = solana_sdk::hash::hashv(&[
        b"p2s_order_escrow",
        &funder.to_bytes(),
        &order.to_bytes(),
        &[bump],
        &program.to_bytes(),
        b"ProgramDerivedAddress",
    ]);
    assert_eq!(escrow.to_bytes(), hash.to_bytes());
}
