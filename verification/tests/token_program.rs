use p2swap::error::LedgerError;
use p2swap::ledger::{Account, AccountData, Ledger, TokenAccount};
use p2swap::pubkey::Pubkey;
use p2swap::token;
use solana_sdk::account_info::AccountInfo;
use solana_sdk::program_error::ProgramError;
use solana_sdk::program_option::COption;
use solana_sdk::program_pack::Pack;
use spl_token::error::TokenError;
use spl_token::processor::Processor;
use spl_token::state::{Account as Stored, AccountState};

fn key(n: u8) -> Pubkey {
    Pubkey::new_from_array([n; 32])
}

fn outside(k: &Pubkey) -> solana_sdk::pubkey::Pubkey {
    solana_sdk::pubkey::Pubkey::new_from_array(k.to_bytes())
}

fn stored(token: &TokenAccount) -> Vec<u8> {
    let mut data = vec![0u8; Stored::LEN];
    Stored::pack(
        Stored {
            mint: outside(&token.mint),
            owner: outside(&token.authority),
            amount: token.amount,
            delegate: COption::None,
            state: AccountState::Initialized,
            is_native: COption::None,
            delegated_amount: 0,
            close_authority: COption::None,
        },
        &mut data,
    )
    .unwrap();
    data
}

fn amount(data: &[u8]) -> u64 {
    Stored::unpack(data).unwrap().amount
}

/// The error of the library's ledger that stands for an error of the token
/// program.
fn kind(error: ProgramError) -> LedgerError {
    let is = |e: TokenError| error == ProgramError::from(e);
    if is(TokenError::InsufficientFunds) {
        LedgerError::InsufficientFunds
    } else if is(TokenError::MintMismatch) {
        LedgerError::MintMismatch
    } else if is(TokenError::OwnerMismatch) {
        LedgerError::OwnerMismatch
    } else if is(TokenError::Overflow) {
        LedgerError::BalanceOverflow
    } else if is(TokenError::NonNativeHasBalance) {
        LedgerError::NonZeroBalance
    } else if error == ProgramError::InvalidAccountData {
        LedgerError::InvalidAccountData
    } else {
        panic!("an error that the ledger does not know: {:?}", error)
    }
}

#[test]
fn token_transfer_does_what_the_token_program_does() {
    let program = spl_token::id();
    let (mint, other_mint) = (key(10), key(11));
    let (owner, stranger) = (key(1), key(9));
    let cases: Vec<(TokenAccount, TokenAccount, Pubkey, u64)> = vec![
        // plain
        (
            TokenAccount { mint, authority: owner, amount: 100 },
            TokenAccount { mint, authority: stranger, amount: 5 },
            owner,
            60,
        ),
        // all of it, and nothing
        (
            TokenAccount { mint, authority: owner, amount: 100 },
            TokenAccount { mint, authority: owner, amount: 0 },
            owner,
            100,
        ),
        (
            TokenAccount { mint, authority: owner, amount: 100 },
            TokenAccount { mint, authority: owner, amount: 0 },
            owner,
            0,
        ),
        // too much
        (
            TokenAccount { mint, authority: owner, amount: 100 },
            TokenAccount { mint, authority: owner, amount: 0 },
            owner,
            101,
        ),
        // another asset
        (
            TokenAccount { mint, authority: owner, amount: 100 },
            TokenAccount { mint: other_mint, authority: owner, amount: 0 },
            owner,
            1,
        ),
        // another authority
        (
            TokenAccount { mint, authority: owner, amount: 100 },
            TokenAccount { mint, authority: owner, amount: 0 },
            stranger,
            1,
        ),
        // more than the destination can hold
        (
            TokenAccount { mint, authority: owner, amount: 100 },
            TokenAccount { mint, authority: owner, amount: u64::MAX - 10 },
            owner,
            11,
        ),
        // several faults at once: the amount is judged first, then the asset,
        // then the authority
        (
            TokenAccount { mint, authority: owner, amount: 100 },
            TokenAccount { mint: other_mint, authority: owner, amount: 0 },
            stranger,
            101,
        ),
        (
            TokenAccount { mint, authority: owner, amount: 100 },
            TokenAccount { mint: other_mint, authority: owner, amount: 0 },
            stranger,
            1,
        ),
        (
            TokenAccount { mint, authority: owner, amount: 100 },
            TokenAccount { mint, authority: owner, amount: u64::MAX },
            stranger,
            1,
        ),
    ];
    for (from, to, authority, transferred) in cases {
        let (from_key, to_key) = (key(20), key(21));

        let mut ledger = Ledger::new();
        let account = |token: TokenAccount| Account {
            lamports: 2_039_280,
            owner: Pubkey::new_from_array(program.to_bytes()),
            space: 165,
            data: AccountData::Token(token),
        };
        ledger.set(from_key, account(from));
        ledger.set(to_key, account(to));
        let modelled = token::transfer(&mut ledger, &from_key, &to_key, &authority, transferred);

        let (from_outside, to_outside, authority_outside) =
            (outside(&from_key), outside(&to_key), outside(&authority));
        let system = solana_sdk::pubkey::Pubkey::new_from_array([0; 32]);
        let (mut from_lamports, mut to_lamports, mut authority_lamports) = (2_039_280, 2_039_280, 1);
        let (mut from_data, mut to_data, mut authority_data) = (stored(&from), stored(&to), vec![]);
        let infos = [
            AccountInfo::new(
                &from_outside,
                false,
                true,
                &mut from_lamports,
                &mut from_data,
                &program,
                false,
            ),
            AccountInfo::new(&to_outside, false, true, &mut to_lamports, &mut to_data, &program, false),
            AccountInfo::new(
                &authority_outside,
                true,
                false,
                &mut authority_lamports,
                &mut authority_data,
                &system,
                false,
            ),
        ];
        let real = Processor::process_transfer(&program, &infos, transferred, None);
        let after_from = amount(&infos[0].data.borrow());
        let after_to = amount(&infos[1].data.borrow());

        assert_eq!(modelled, real.map_err(kind));
        match ledger.get(&from_key).unwrap().data {
            AccountData::Token(t) => assert_eq!(t.amount, after_from),
            _ => panic!("not a token account"),
        }
        match ledger.get(&to_key).unwrap().data {
            AccountData::Token(t) => assert_eq!(t.amount, after_to),
            _ => panic!("not a token account"),
        }
    }
}

#[test]
fn token_transfer_to_itself_does_what_the_token_program_does() {
    let program = spl_token::id();
    let (mint, owner, stranger) = (key(10), key(1), key(9));
    for (authority, transferred) in [(owner, 100), (owner, 0), (owner, 101), (stranger, 1)] {
        let token = TokenAccount { mint, authority: owner, amount: 100 };
        let account_key = key(20);
        let mut ledger = Ledger::new();
        ledger.set(
            account_key,
            Account {
                lamports: 2_039_280,
                owner: Pubkey::new_from_array(program.to_bytes()),
                space: 165,
                data: AccountData::Token(token),
            },
        );
        let modelled =
            token::transfer(&mut ledger, &account_key, &account_key, &authority, transferred);

        let (account_outside, authority_outside) = (outside(&account_key), outside(&authority));
        let system = solana_sdk::pubkey::Pubkey::new_from_array([0; 32]);
        let (mut lamports, mut authority_lamports) = (2_039_280, 1);
        let (mut data, mut authority_data) = (stored(&token), vec![]);
        let account_info =
            AccountInfo::new(&account_outside, false, true, &mut lamports, &mut data, &program, false);
        let infos = [
            account_info.clone(),
            account_info,
            AccountInfo::new(
                &authority_outside,
                true,
                false,
                &mut authority_lamports,
                &mut authority_data,
                &system,
                false,
            ),
        ];
        let real = Processor::process_transfer(&program, &infos, transferred, None);
        assert_eq!(modelled, real.map_err(kind));
        assert_eq!(amount(&infos[0].data.borrow()), 100);
        match ledger.get(&account_key).unwrap().data {
            AccountData::Token(t) => assert_eq!(t.amount, 100),
            _ => panic!("not a token account"),
        }
    }
}

#[test]
fn token_close_account_does_what_the_token_program_does() {
    let (mint, owner, stranger) = (key(10), key(1), key(9));
    let (account_key, destination_key) = (key(20), key(21));
    // the tokens in the account, who asks, where the balance goes, and what
    // stands there already
    let cases: Vec<(u64, Pubkey, Pubkey, u64)> = vec![
        (0, owner, destination_key, 7),
        (0, owner, destination_key, 0),
        (1, owner, destination_key, 7),
        (0, stranger, destination_key, 7),
        (0, owner, account_key, 7),
        (0, owner, destination_key, u64::MAX),
        (1, stranger, account_key, u64::MAX),
        (1, stranger, destination_key, u64::MAX),
        (0, stranger, destination_key, u64::MAX),
    ];
    for (held, authority, destination, destination_balance) in cases {
        let program = spl_token::id();
        // the token program hands a closed account to the system program by
        // writing into the owner that it was given
        let mut account_owner = spl_token::id();
        let token = TokenAccount { mint, authority: owner, amount: held };

        let mut ledger = Ledger::new();
        ledger.set(
            account_key,
            Account {
                lamports: 2_039_280,
                owner: Pubkey::new_from_array(program.to_bytes()),
                space: 165,
                data: AccountData::Token(token),
            },
        );
        if destination != account_key {
            ledger.set(
                destination,
                Account {
                    lamports: destination_balance,
                    owner: Pubkey::system(),
                    space: 0,
                    data: AccountData::Empty,
                },
            );
        }
        let modelled = token::close_account(&mut ledger, &account_key, &destination, &authority);

        let (account_outside, destination_outside, authority_outside) =
            (outside(&account_key), outside(&destination), outside(&authority));
        let system = solana_sdk::pubkey::Pubkey::new_from_array([0; 32]);
        let (mut lamports, mut destination_lamports, mut authority_lamports) =
            (2_039_280, destination_balance, 1);
        let (mut data, mut destination_data, mut authority_data) = (stored(&token), vec![], vec![]);
        let account_info = AccountInfo::new(
            &account_outside,
            false,
            true,
            &mut lamports,
            &mut data,
            &mut account_owner,
            false,
        );
        let destination_info = if destination == account_key {
            account_info.clone()
        } else {
            AccountInfo::new(
                &destination_outside,
                false,
                true,
                &mut destination_lamports,
                &mut destination_data,
                &system,
                false,
            )
        };
        let infos = [
            account_info,
            destination_info,
            AccountInfo::new(
                &authority_outside,
                true,
                false,
                &mut authority_lamports,
                &mut authority_data,
                &system,
                false,
            ),
        ];
        let real = Processor::process_close_account(&program, &infos);

        assert_eq!(modelled, real.clone().map_err(kind));
        if real.is_ok() {
            assert_eq!(infos[0].lamports(), 0);
            assert!(infos[0].data.borrow().iter().all(|b| *b == 0));
            assert!(!ledger.contains(&account_key));
            assert_eq!(ledger.get(&destination).unwrap().lamports, infos[1].lamports());
            assert_eq!(infos[1].lamports(), destination_balance + 2_039_280);
        } else {
            assert_eq!(infos[0].lamports(), 2_039_280);
            assert_eq!(amount(&infos[0].data.borrow()), held);
            assert_eq!(ledger.get(&account_key).unwrap().lamports, 2_039_280);
            if destination != account_key {
                assert_eq!(ledger.get(&destination).unwrap().lamports, destination_balance);
            }
        }
    }
}
