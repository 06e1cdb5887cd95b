//! Escrow address derivation and the moves of the native asset.

use vstd::prelude::*;
use crate::error::LedgerError;
use crate::ledger::{Account, AccountData, Ledger};
use crate::pubkey::Pubkey;

verus! {

/// The fixed first seed of every escrow address.
pub const ORDER_ESCROW_PREFIX: &'static str = "p2s_order_escrow";

/// Bytes reserved for an escrow that holds the native asset.
pub const ORDER_ESCROW_NATIVE_SIZE: usize = 8 + 1;

/// What `Pubkey::create_program_address` of `anchor_lang::prelude` makes of
/// the four seeds `prefix` (as bytes), `funder`, `order` and the one byte
/// `bump` under `program_id`: the derived address, or `None` where it
/// reports an error.
pub uninterp spec fn derived_address(
    prefix: Seq<char>,
    funder: Seq<u8>,
    order: Seq<u8>,
    bump: u8,
    program_id: Seq<u8>,
) -> Option<Seq<u8>>;

/// The bytes of the address, if there is one.
pub open spec fn address_bytes(k: Option<Pubkey>) -> Option<Seq<u8>> {
    match k {
        Some(k) => Some(k@),
        None => None,
    }
}

/// `Pubkey::create_program_address` of `anchor_lang::prelude`, on the seeds
/// `prefix`, `funder`, `order` and `[bump]`. The call hashes its arguments
/// and nothing else, so the same arguments always give the same result;
/// the result is not stated beyond that.
#[verifier::external_body]
fn create_program_address(
    prefix: &str,
    funder: &Pubkey,
    order: &Pubkey,
    bump: u8,
    program_id: &Pubkey,
) -> (r: Option<Pubkey>)
    ensures
        address_bytes(r) == derived_address(prefix@, funder@, order@, bump, program_id@),
{
    let program = anchor_lang::prelude::Pubkey::new_from_array(program_id.bytes);
    let seeds: [&[u8]; 4] = [prefix.as_bytes(), &funder.bytes, &order.bytes, &[bump]];
    match anchor_lang::prelude::Pubkey::create_program_address(&seeds, &program) {
        Ok(address) => Some(Pubkey { bytes: address.to_bytes() }),
        Err(_) => None,
    }
}

/// `Pubkey::try_find_program_address` of `anchor_lang::prelude`, on the seeds
/// `prefix`, `funder` and `order`. It tries the bumps from 255 down to 1,
/// each appended as a fourth seed of one byte, and returns the first for
/// which `create_program_address` succeeds, with the address; `None` where
/// none of them does.
#[verifier::external_body]
fn try_find_program_address(
    prefix: &str,
    funder: &Pubkey,
    order: &Pubkey,
    program_id: &Pubkey,
) -> (r: Option<(Pubkey, u8)>)
    ensures
        match r {
            Some((address, bump)) => {
                &&& bump >= 1
                &&& derived_address(prefix@, funder@, order@, bump, program_id@) == Some(address@)
                &&& forall|b: u8|
                    bump < b ==> #[trigger] derived_address(
                        prefix@,
                        funder@,
                        order@,
                        b,
                        program_id@,
                    ) is None
            },
            None => forall|b: u8|
                1 <= b ==> #[trigger] derived_address(prefix@, funder@, order@, b, program_id@)
                    is None,
        },
{
    let program = anchor_lang::prelude::Pubkey::new_from_array(program_id.bytes);
    let seeds: [&[u8]; 3] = [prefix.as_bytes(), &funder.bytes, &order.bytes];
    match anchor_lang::prelude::Pubkey::try_find_program_address(&seeds, &program) {
        Some((address, bump)) => Some((Pubkey { bytes: address.to_bytes() }, bump)),
        None => None,
    }
}

/// The escrow address of `order`, opened by `funder`, for one bump, under
/// the program `program_id`; `None` where the bump gives no address.
pub open spec fn escrow_address(funder: Pubkey, order: Pubkey, bump: u8, program_id: Pubkey) -> Option<
    Seq<u8>,
> {
    derived_address(ORDER_ESCROW_PREFIX@, funder@, order@, bump, program_id@)
}

/// Whether `escrow` is the escrow address of the order for this bump. Who
/// can show such a bump may act for the escrow: no key is stored for it.
pub open spec fn spec_is_order_escrow(
    escrow: Pubkey,
    funder: Pubkey,
    order: Pubkey,
    bump: u8,
    program_id: Pubkey,
) -> bool {
    escrow_address(funder, order, bump, program_id) == Some(escrow@)
}

/// The escrow address for a given bump, derived anew.
pub fn order_escrow_address(funder: &Pubkey, order: &Pubkey, bump: u8, program_id: &Pubkey) -> (r:
    Option<Pubkey>)
    ensures
        address_bytes(r) == escrow_address(*funder, *order, bump, *program_id),
{
    create_program_address(ORDER_ESCROW_PREFIX, funder, order, bump, program_id)
}

/// Whether `escrow` is the escrow address of the order for this bump.
pub fn is_order_escrow(
    escrow: &Pubkey,
    funder: &Pubkey,
    order: &Pubkey,
    bump: u8,
    program_id: &Pubkey,
) -> (r: bool)
    ensures
        r == spec_is_order_escrow(*escrow, *funder, *order, bump, *program_id),
{
    match order_escrow_address(funder, order, bump, program_id) {
        Some(address) => {
            proof {
                if address@ == escrow@ {
                    crate::pubkey::lemma_pubkey_ext(address, *escrow);
                }
            }
            address == *escrow
        },
        None => false,
    }
}

/// Whether `found` is what the search for the escrow of an order gives: the
/// address for the largest bump from 255 down to 1 that gives one, with that
/// bump; nothing where no bump gives an address.
pub open spec fn is_found_escrow(
    found: Option<(Pubkey, u8)>,
    funder: Pubkey,
    order: Pubkey,
    program_id: Pubkey,
) -> bool {
    match found {
        Some((escrow, bump)) => {
            &&& bump >= 1
            &&& spec_is_order_escrow(escrow, funder, order, bump, program_id)
            &&& forall|b: u8|
                bump < b ==> #[trigger] escrow_address(funder, order, b, program_id) is None
        },
        None => forall|b: u8|
            1 <= b ==> #[trigger] escrow_address(funder, order, b, program_id) is None,
    }
}

/// The search has one outcome.
pub proof fn lemma_found_escrow_unique(
    first: Option<(Pubkey, u8)>,
    second: Option<(Pubkey, u8)>,
    funder: Pubkey,
    order: Pubkey,
    program_id: Pubkey,
)
    requires
        is_found_escrow(first, funder, order, program_id),
        is_found_escrow(second, funder, order, program_id),
    ensures
        first == second,
{
    match (first, second) {
        (Some((e1, b1)), Some((e2, b2))) => {
            if b1 < b2 {
                assert(escrow_address(funder, order, b2, program_id) is None);
            } else if b2 < b1 {
                assert(escrow_address(funder, order, b1, program_id) is None);
            }
            crate::pubkey::lemma_pubkey_ext(e1, e2);
        },
        (Some((e1, b1)), None) => {
            assert(escrow_address(funder, order, b1, program_id) is None);
        },
        (None, Some((e2, b2))) => {
            assert(escrow_address(funder, order, b2, program_id) is None);
        },
        (None, None) => {},
    }
}

/// The escrow address of an order and its bump, as the search gives them.
pub open spec fn spec_find_order_escrow_address(
    funder: Pubkey,
    order: Pubkey,
    program_id: Pubkey,
) -> Option<(Pubkey, u8)> {
    choose|found: Option<(Pubkey, u8)>| is_found_escrow(found, funder, order, program_id)
}

/// The escrow address of an order and its bump: the largest bump from 255
/// down to 1 that gives an address. `None` if none of them does.
pub fn find_order_escrow_address(funder_wallet: &Pubkey, order: &Pubkey, program_id: &Pubkey) -> (r:
    Option<(Pubkey, u8)>)
    ensures
        is_found_escrow(r, *funder_wallet, *order, *program_id),
        r == spec_find_order_escrow_address(*funder_wallet, *order, *program_id),
{
    let r = try_find_program_address(ORDER_ESCROW_PREFIX, funder_wallet, order, program_id);
    proof {
        assert(is_found_escrow(r, *funder_wallet, *order, *program_id));
        lemma_found_escrow_unique(
            r,
            spec_find_order_escrow_address(*funder_wallet, *order, *program_id),
            *funder_wallet,
            *order,
            *program_id,
        );
    }
    r
}

/// The native balance under an address; nothing where no account stands.
pub open spec fn balance(accounts: Map<Pubkey, Account>, key: Pubkey) -> nat {
    if accounts.contains_key(key) {
        accounts[key].lamports as nat
    } else {
        0
    }
}

/// A wallet with nothing but a balance, as one appears when an address that
/// is not in use receives some of the native asset.
pub open spec fn wallet(lamports: u64) -> Account {
    Account { lamports, owner: Pubkey::spec_system(), space: 0, data: AccountData::Empty }
}

/// The accounts after `lamports` have left `key`.
pub open spec fn debited(accounts: Map<Pubkey, Account>, key: Pubkey, lamports: u64) -> Map<
    Pubkey,
    Account,
>
    recommends
        accounts.contains_key(key),
        accounts[key].lamports >= lamports,
{
    accounts.insert(
        key,
        Account { lamports: (accounts[key].lamports - lamports) as u64, ..accounts[key] },
    )
}

/// The accounts after `lamports` have come to `key`. Where the address is
/// not in use, a wallet appears; but nothing appears for an amount of
/// nothing.
pub open spec fn credited(accounts: Map<Pubkey, Account>, key: Pubkey, lamports: u64) -> Map<
    Pubkey,
    Account,
>
    recommends
        balance(accounts, key) + lamports <= u64::MAX,
{
    if accounts.contains_key(key) {
        accounts.insert(
            key,
            Account { lamports: (accounts[key].lamports + lamports) as u64, ..accounts[key] },
        )
    } else if lamports == 0 {
        accounts
    } else {
        accounts.insert(key, wallet(lamports))
    }
}

/// Takes `lamports` out of the account under `key`.
fn debit(ledger: &mut Ledger, key: &Pubkey, lamports: u64)
    requires
        old(ledger)@.contains_key(*key),
        old(ledger)@[*key].lamports >= lamports,
    ensures
        final(ledger)@ == debited(old(ledger)@, *key, lamports),
{
    match ledger.get(key) {
        Some(account) => {
            ledger.set(*key, Account { lamports: account.lamports - lamports, ..account });
        },
        None => {},
    }
}

/// Puts `lamports` into the account under `key`; a wallet appears where the
/// address is not in use and the amount is not nothing.
pub(crate) fn credit(ledger: &mut Ledger, key: &Pubkey, lamports: u64)
    requires
        balance(old(ledger)@, *key) + lamports <= u64::MAX,
    ensures
        final(ledger)@ == credited(old(ledger)@, *key, lamports),
{
    match ledger.get(key) {
        Some(account) => {
            ledger.set(*key, Account { lamports: account.lamports + lamports, ..account });
        },
        None => {
            if lamports != 0 {
                ledger.set(
                    *key,
                    Account {
                        lamports,
                        owner: Pubkey::system(),
                        space: 0,
                        data: AccountData::Empty,
                    },
                );
            }
        },
    }
}

/// What a transfer by the system program does to the accounts, or why it is
/// refused.
pub open spec fn sys_transfer_spec(
    accounts: Map<Pubkey, Account>,
    from: Pubkey,
    to: Pubkey,
    lamports: u64,
) -> Result<Map<Pubkey, Account>, LedgerError> {
    if !accounts.contains_key(from) {
        Err(LedgerError::AccountNotFound)
    } else if accounts[from].data != AccountData::Empty {
        Err(LedgerError::InvalidAccountData)
    } else if accounts[from].lamports < lamports {
        Err(LedgerError::InsufficientFunds)
    } else if balance(debited(accounts, from, lamports), to) + lamports > u64::MAX {
        Err(LedgerError::BalanceOverflow)
    } else {
        Ok(credited(debited(accounts, from, lamports), to, lamports))
    }
}

/// How a ledger operation ended: with the accounts that the model gives, or
/// with its error and the accounts untouched.
pub open spec fn ledger_step(
    before: Map<Pubkey, Account>,
    after: Map<Pubkey, Account>,
    r: Result<(), LedgerError>,
    model: Result<Map<Pubkey, Account>, LedgerError>,
) -> bool {
    match model {
        Ok(accounts) => r is Ok && after == accounts,
        Err(e) => r == Err::<(), LedgerError>(e) && after == before,
    }
}

/// Moves `lamports` from the wallet `from` to `to` through the system
/// program. `from` must be a wallet without contents that holds the amount.
pub fn sys_transfer(ledger: &mut Ledger, from: &Pubkey, to: &Pubkey, lamports: u64) -> (r: Result<
    (),
    LedgerError,
>)
    ensures
        ledger_step(
            old(ledger)@,
            final(ledger)@,
            r,
            sys_transfer_spec(old(ledger)@, *from, *to, lamports),
        ),
{
    let source = match ledger.get(from) {
        Some(account) => account,
        None => {
            return Err(LedgerError::AccountNotFound);
        },
    };
    match source.data {
        AccountData::Empty => {},
        _ => {
            return Err(LedgerError::InvalidAccountData);
        },
    }
    if source.lamports < lamports {
        return Err(LedgerError::InsufficientFunds);
    }
    let held = if *from == *to {
        source.lamports - lamports
    } else {
        match ledger.get(to) {
            Some(account) => account.lamports,
            None => 0,
        }
    };
    if held > u64::MAX - lamports {
        return Err(LedgerError::BalanceOverflow);
    }
    debit(ledger, from, lamports);
    credit(ledger, to, lamports);
    Ok(())
}

/// What opening an account through the system program does to the accounts,
/// or why it is refused.
pub open spec fn sys_create_account_spec(
    accounts: Map<Pubkey, Account>,
    from: Pubkey,
    to: Pubkey,
    lamports: u64,
    space: u64,
    owner: Pubkey,
) -> Result<Map<Pubkey, Account>, LedgerError> {
    if accounts.contains_key(to) {
        Err(LedgerError::AccountAlreadyInUse)
    } else if !accounts.contains_key(from) {
        Err(LedgerError::AccountNotFound)
    } else if accounts[from].data != AccountData::Empty {
        Err(LedgerError::InvalidAccountData)
    } else if accounts[from].lamports < lamports {
        Err(LedgerError::InsufficientFunds)
    } else {
        Ok(
            debited(accounts, from, lamports).insert(
                to,
                Account { lamports, owner, space, data: AccountData::Empty },
            ),
        )
    }
}

/// Opens the account `to` with `space` bytes for the program `owner`, and
/// has the wallet `from` pay `lamports` into it. The address must not be in
/// use.
pub fn sys_create_account(
    ledger: &mut Ledger,
    from: &Pubkey,
    to: &Pubkey,
    lamports: u64,
    space: usize,
    owner: &Pubkey,
) -> (r: Result<(), LedgerError>)
    ensures
        ledger_step(
            old(ledger)@,
            final(ledger)@,
            r,
            sys_create_account_spec(old(ledger)@, *from, *to, lamports, space as u64, *owner),
        ),
{
    if ledger.contains(to) {
        return Err(LedgerError::AccountAlreadyInUse);
    }
    let source = match ledger.get(from) {
        Some(account) => account,
        None => {
            return Err(LedgerError::AccountNotFound);
        },
    };
    match source.data {
        AccountData::Empty => {},
        _ => {
            return Err(LedgerError::InvalidAccountData);
        },
    }
    if source.lamports < lamports {
        return Err(LedgerError::InsufficientFunds);
    }
    debit(ledger, from, lamports);
    ledger.set(
        *to,
        Account { lamports, owner: *owner, space: space as u64, data: AccountData::Empty },
    );
    Ok(())
}

/// What a direct move of the native balance does to the accounts, or why it
/// is refused. An address that is not in use holds nothing: nothing can be
/// moved from it but an amount of nothing, which changes nothing.
pub open spec fn move_lamports_spec(
    accounts: Map<Pubkey, Account>,
    src: Pubkey,
    dst: Pubkey,
    lamports: u64,
) -> Result<Map<Pubkey, Account>, LedgerError> {
    if src == dst {
        Err(LedgerError::AccountBorrowFailed)
    } else if balance(accounts, src) < lamports {
        Err(LedgerError::InsufficientFunds)
    } else if balance(accounts, dst) + lamports > u64::MAX {
        Err(LedgerError::BalanceOverflow)
    } else if !accounts.contains_key(src) {
        Ok(accounts)
    } else {
        Ok(credited(debited(accounts, src, lamports), dst, lamports))
    }
}

/// Moves `lamports` from `src` to `dst` by adjusting the two balances. An
/// address that is not in use counts as a balance of nothing.
pub fn move_lamports(ledger: &mut Ledger, src: &Pubkey, dst: &Pubkey, lamports: u64) -> (r: Result<
    (),
    LedgerError,
>)
    ensures
        ledger_step(
            old(ledger)@,
            final(ledger)@,
            r,
            move_lamports_spec(old(ledger)@, *src, *dst, lamports),
        ),
{
    if *src == *dst {
        return Err(LedgerError::AccountBorrowFailed);
    }
    let source = ledger.get(src);
    let available = match source {
        Some(account) => account.lamports,
        None => 0,
    };
    if available < lamports {
        return Err(LedgerError::InsufficientFunds);
    }
    let held = match ledger.get(dst) {
        Some(account) => account.lamports,
        None => 0,
    };
    if held > u64::MAX - lamports {
        return Err(LedgerError::BalanceOverflow);
    }
    if source.is_some() {
        debit(ledger, src, lamports);
        credit(ledger, dst, lamports);
    }
    Ok(())
}

/// What deleting an account does to the accounts, or why it is refused. An
/// address that is not in use holds nothing: deleting it changes nothing,
/// so that an account can be deleted again.
pub open spec fn delete_account_spec(
    accounts: Map<Pubkey, Account>,
    target: Pubkey,
    receiver: Pubkey,
) -> Result<Map<Pubkey, Account>, LedgerError> {
    if target == receiver {
        Err(LedgerError::AccountBorrowFailed)
    } else if !accounts.contains_key(target) {
        Ok(accounts)
    } else if balance(accounts, receiver) + accounts[target].lamports > u64::MAX {
        Err(LedgerError::BalanceOverflow)
    } else {
        Ok(credited(accounts, receiver, accounts[target].lamports).remove(target))
    }
}

/// Deletes the account `target`: its whole balance goes to `receiver`, and
/// the address is no longer in use. Where it was not in use, nothing
/// changes.
pub fn delete_account(ledger: &mut Ledger, target: &Pubkey, receiver: &Pubkey) -> (r: Result<
    (),
    LedgerError,
>)
    ensures
        ledger_step(
            old(ledger)@,
            final(ledger)@,
            r,
            delete_account_spec(old(ledger)@, *target, *receiver),
        ),
{
    if *target == *receiver {
        return Err(LedgerError::AccountBorrowFailed);
    }
    let account = match ledger.get(target) {
        Some(account) => account,
        None => {
            return Ok(());
        },
    };
    let held = match ledger.get(receiver) {
        Some(account) => account.lamports,
        None => 0,
    };
    if held > u64::MAX - account.lamports {
        return Err(LedgerError::BalanceOverflow);
    }
    credit(ledger, receiver, account.lamports);
    ledger.remove(target);
    Ok(())
}

/// An account can be deleted again: after a deletion that succeeds, the same
/// deletion succeeds once more and changes nothing, so that the receiver is
/// paid once.
pub proof fn lemma_delete_account_again(
    accounts: Map<Pubkey, Account>,
    target: Pubkey,
    receiver: Pubkey,
)
    requires
        delete_account_spec(accounts, target, receiver) is Ok,
    ensures
        ({
            let after = delete_account_spec(accounts, target, receiver)->Ok_0;
            &&& !after.contains_key(target)
            &&& balance(after, receiver) == balance(accounts, receiver) + balance(
                accounts,
                target,
            )
            &&& delete_account_spec(after, target, receiver) == Ok::<
                Map<Pubkey, Account>,
                LedgerError,
            >(after)
        }),
{
}

/// A move of nothing changes nothing: it succeeds between any two different
/// addresses, in use or not, and leaves the accounts as they were.
pub proof fn lemma_move_nothing(accounts: Map<Pubkey, Account>, src: Pubkey, dst: Pubkey)
    requires
        src != dst,
    ensures
        move_lamports_spec(accounts, src, dst, 0) == Ok::<Map<Pubkey, Account>, LedgerError>(
            accounts,
        ),
{
    if accounts.contains_key(src) {
        assert(credited(debited(accounts, src, 0), dst, 0) =~= accounts);
    }
}

} // verus!
