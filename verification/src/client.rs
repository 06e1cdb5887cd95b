//! What a client of the program works out before it talks to the ledger:
//! the instructions it sends, and the question it asks for the history of
//! orders.

use vstd::prelude::*;
use crate::context::{CancelOrder, Context, CreateOrder, ExecuteOrder};
use crate::error::InstructionError;
use crate::instruction::{
    lemma_instruction_pack_unpack, process_instruction_spec, AccountMeta, OrderInstruction,
    ProgramIds,
};
use crate::ledger::{Account, AccountData, Ledger};
use crate::processor::{is_order, is_order_of, load_order, order_of};
use crate::pubkey::Pubkey;
use crate::state::{lemma_pack_unpack, Order, OrderStatus, FUNDER_OFFSET, STATUS_OFFSET};
use crate::utils::{find_order_escrow_address, is_found_escrow, spec_find_order_escrow_address};

verus! {

/// The status that a client may ask the order history for.
#[derive(Clone, Copy, Debug, PartialEq, Eq, Structural)]
pub enum OrderStatusArg {
    /// Orders that are open.
    Created,
    /// Orders that the funder took back.
    Canceled,
    /// Orders that the recipient executed.
    Completed,
}

/// An instruction as it is sent to the ledger.
#[derive(Debug, PartialEq, Eq)]
pub struct Instruction {
    /// The program that the instruction is for.
    pub program_id: Pubkey,
    /// The accounts that it works on, with their roles.
    pub accounts: Vec<AccountMeta>,
    /// The message that carries its arguments.
    pub data: Vec<u8>,
}

/// What an `Instruction` holds.
pub struct InstructionView {
    pub program_id: Pubkey,
    pub accounts: Seq<AccountMeta>,
    pub data: Seq<u8>,
}

impl View for Instruction {
    type V = InstructionView;

    open spec fn view(&self) -> InstructionView {
        InstructionView { program_id: self.program_id, accounts: self.accounts@, data: self.data@ }
    }
}

/// What an optional `Instruction` holds.
pub open spec fn sent(instruction: Option<Instruction>) -> Option<InstructionView> {
    match instruction {
        Some(i) => Some(i@),
        None => None,
    }
}

/// The accounts of a creation as the client names them, around the escrow.
pub open spec fn create_accounts(
    wallet: Pubkey,
    order: Pubkey,
    recipient: Pubkey,
    token_account: Pubkey,
    quote_token_account: Pubkey,
    base_mint: Pubkey,
    quote_mint: Pubkey,
    escrow: Pubkey,
) -> CreateOrder {
    CreateOrder {
        order,
        funder: wallet,
        recipient,
        funder_token_account: token_account,
        escrow,
        quote_token_account,
        escrow_mint: base_mint,
        quote_mint,
    }
}

/// The instruction by which `wallet` creates the order `order` with the
/// escrow `escrow`, found with the bump `escrow_bump`: it names the accounts
/// and carries the arguments.
pub open spec fn spec_create_order_with(
    ids: ProgramIds,
    accounts: CreateOrder,
    escrow_bump: u8,
    base_amount: u64,
    quote_amount: u64,
    start_date: Option<i64>,
    expire_date: i64,
) -> InstructionView {
    InstructionView {
        program_id: ids.program_id,
        accounts: accounts.spec_account_metas(ids),
        data: (OrderInstruction::CreateOrder {
            escrow_bump,
            base_amount,
            quote_amount,
            start_date,
            expire_date,
        }).spec_pack(),
    }
}

/// Builds the instruction that creates an order on the given accounts, of
/// which the escrow was found with the bump `escrow_bump`.
pub fn create_order_with(
    ids: &ProgramIds,
    accounts: &CreateOrder,
    escrow_bump: u8,
    base_amount: u64,
    quote_amount: u64,
    start_date: Option<i64>,
    expire_date: i64,
) -> (r: Instruction)
    ensures
        r@ == spec_create_order_with(
            *ids,
            *accounts,
            escrow_bump,
            base_amount,
            quote_amount,
            start_date,
            expire_date,
        ),
{
    let data = (OrderInstruction::CreateOrder {
        escrow_bump,
        base_amount,
        quote_amount,
        start_date,
        expire_date,
    }).pack();
    Instruction { program_id: ids.program_id, accounts: accounts.to_account_metas(ids), data }
}

/// The instruction by which `wallet` creates the order `order`: the escrow
/// and its bump are searched for. `None` where the search finds no escrow
/// address.
pub open spec fn spec_create_order(
    ids: ProgramIds,
    wallet: Pubkey,
    order: Pubkey,
    recipient: Pubkey,
    token_account: Pubkey,
    quote_token_account: Pubkey,
    base_mint: Pubkey,
    quote_mint: Pubkey,
    base_amount: u64,
    quote_amount: u64,
    start_date: Option<i64>,
    expire_date: i64,
) -> Option<InstructionView> {
    match spec_find_order_escrow_address(wallet, order, ids.program_id) {
        None => None,
        Some((escrow, escrow_bump)) => Some(
            spec_create_order_with(
                ids,
                create_accounts(
                    wallet,
                    order,
                    recipient,
                    token_account,
                    quote_token_account,
                    base_mint,
                    quote_mint,
                    escrow,
                ),
                escrow_bump,
                base_amount,
                quote_amount,
                start_date,
                expire_date,
            ),
        ),
    }
}

/// Builds the instruction by which `wallet` creates the order `order`.
pub fn create_order(
    ids: &ProgramIds,
    wallet: &Pubkey,
    order: &Pubkey,
    recipient: &Pubkey,
    token_account: &Pubkey,
    quote_token_account: &Pubkey,
    base_mint: &Pubkey,
    quote_mint: &Pubkey,
    base_amount: u64,
    quote_amount: u64,
    start_date: Option<i64>,
    expire_date: i64,
) -> (r: Option<Instruction>)
    ensures
        is_found_escrow(
            spec_find_order_escrow_address(*wallet, *order, ids.program_id),
            *wallet,
            *order,
            ids.program_id,
        ),
        sent(r) == spec_create_order(
            *ids,
            *wallet,
            *order,
            *recipient,
            *token_account,
            *quote_token_account,
            *base_mint,
            *quote_mint,
            base_amount,
            quote_amount,
            start_date,
            expire_date,
        ),
{
    let (escrow, escrow_bump) = match find_order_escrow_address(wallet, order, &ids.program_id) {
        Some(found) => found,
        None => {
            return None;
        },
    };
    let accounts = CreateOrder {
        order: *order,
        funder: *wallet,
        recipient: *recipient,
        funder_token_account: *token_account,
        escrow,
        quote_token_account: *quote_token_account,
        escrow_mint: *base_mint,
        quote_mint: *quote_mint,
    };
    Some(
        create_order_with(
            ids,
            &accounts,
            escrow_bump,
            base_amount,
            quote_amount,
            start_date,
            expire_date,
        ),
    )
}

/// The instruction that cancels an order on the given accounts, of which
/// the escrow was found with the bump `escrow_bump`.
pub open spec fn spec_cancel_order_with(
    ids: ProgramIds,
    accounts: CancelOrder,
    escrow_bump: u8,
) -> InstructionView {
    InstructionView {
        program_id: ids.program_id,
        accounts: accounts.spec_account_metas(ids),
        data: (OrderInstruction::CancelOrder { escrow_bump }).spec_pack(),
    }
}

/// Builds the instruction that cancels an order on the given accounts, of
/// which the escrow was found with the bump `escrow_bump`.
pub fn cancel_order_with(ids: &ProgramIds, accounts: &CancelOrder, escrow_bump: u8) -> (r:
    Instruction)
    ensures
        r@ == spec_cancel_order_with(*ids, *accounts, escrow_bump),
{
    let data = (OrderInstruction::CancelOrder { escrow_bump }).pack();
    Instruction { program_id: ids.program_id, accounts: accounts.to_account_metas(ids), data }
}

/// The instruction by which `wallet` cancels its order `order`. `None`
/// where the search finds no escrow address.
pub open spec fn spec_cancel_order(
    ids: ProgramIds,
    wallet: Pubkey,
    order: Pubkey,
    token_account: Pubkey,
) -> Option<InstructionView> {
    match spec_find_order_escrow_address(wallet, order, ids.program_id) {
        None => None,
        Some((escrow, escrow_bump)) => Some(
            spec_cancel_order_with(
                ids,
                CancelOrder { order, funder: wallet, funder_token_account: token_account, escrow },
                escrow_bump,
            ),
        ),
    }
}

/// Builds the instruction by which `wallet` cancels its order `order`.
pub fn cancel_order(ids: &ProgramIds, wallet: &Pubkey, order: &Pubkey, token_account: &Pubkey) -> (r:
    Option<Instruction>)
    ensures
        is_found_escrow(
            spec_find_order_escrow_address(*wallet, *order, ids.program_id),
            *wallet,
            *order,
            ids.program_id,
        ),
        sent(r) == spec_cancel_order(*ids, *wallet, *order, *token_account),
{
    let (escrow, escrow_bump) = match find_order_escrow_address(wallet, order, &ids.program_id) {
        Some(found) => found,
        None => {
            return None;
        },
    };
    let accounts = CancelOrder {
        order: *order,
        funder: *wallet,
        funder_token_account: *token_account,
        escrow,
    };
    Some(cancel_order_with(ids, &accounts, escrow_bump))
}

/// The instruction that executes an order on the given accounts, of which
/// the escrow was found with the bump `escrow_bump`.
pub open spec fn spec_execute_order_with(
    ids: ProgramIds,
    accounts: ExecuteOrder,
    escrow_bump: u8,
) -> InstructionView {
    InstructionView {
        program_id: ids.program_id,
        accounts: accounts.spec_account_metas(ids),
        data: (OrderInstruction::ExecuteOrder { escrow_bump }).spec_pack(),
    }
}

/// Builds the instruction that executes an order on the given accounts, of
/// which the escrow was found with the bump `escrow_bump`.
pub fn execute_order_with(ids: &ProgramIds, accounts: &ExecuteOrder, escrow_bump: u8) -> (r:
    Instruction)
    ensures
        r@ == spec_execute_order_with(*ids, *accounts, escrow_bump),
{
    let data = (OrderInstruction::ExecuteOrder { escrow_bump }).pack();
    Instruction { program_id: ids.program_id, accounts: accounts.to_account_metas(ids), data }
}

/// The instruction by which `wallet` executes the order `order` of
/// `funder`. `None` where the search finds no escrow address.
pub open spec fn spec_execute_order(
    ids: ProgramIds,
    wallet: Pubkey,
    order: Pubkey,
    funder: Pubkey,
    token_account: Pubkey,
    receive_token_account: Pubkey,
    quote_token_account: Pubkey,
) -> Option<InstructionView> {
    match spec_find_order_escrow_address(funder, order, ids.program_id) {
        None => None,
        Some((escrow, escrow_bump)) => Some(
            spec_execute_order_with(
                ids,
                ExecuteOrder {
                    order,
                    funder,
                    recipient: wallet,
                    recipient_token_account: token_account,
                    recipient_receive_token_account: receive_token_account,
                    escrow,
                    quote_token_account,
                },
                escrow_bump,
            ),
        ),
    }
}

/// Builds the instruction by which `wallet` executes the order `order` of
/// `funder`.
pub fn execute_order(
    ids: &ProgramIds,
    wallet: &Pubkey,
    order: &Pubkey,
    funder: &Pubkey,
    token_account: &Pubkey,
    receive_token_account: &Pubkey,
    quote_token_account: &Pubkey,
) -> (r: Option<Instruction>)
    ensures
        is_found_escrow(
            spec_find_order_escrow_address(*funder, *order, ids.program_id),
            *funder,
            *order,
            ids.program_id,
        ),
        sent(r) == spec_execute_order(
            *ids,
            *wallet,
            *order,
            *funder,
            *token_account,
            *receive_token_account,
            *quote_token_account,
        ),
{
    let (escrow, escrow_bump) = match find_order_escrow_address(funder, order, &ids.program_id) {
        Some(found) => found,
        None => {
            return None;
        },
    };
    let accounts = ExecuteOrder {
        order: *order,
        funder: *funder,
        recipient: *wallet,
        recipient_token_account: *token_account,
        recipient_receive_token_account: *receive_token_account,
        escrow,
        quote_token_account: *quote_token_account,
    };
    Some(execute_order_with(ids, &accounts, escrow_bump))
}

/// The order record under `order`, if one stands there.
pub fn get_order(ledger: &Ledger, order: &Pubkey) -> (r: Option<Order>)
    ensures
        r == (if is_order(ledger@, *order) {
            Some(order_of(ledger@, *order))
        } else {
            None
        }),
{
    load_order(ledger, order)
}

/// What the client writes, the program reads: the list of accounts and the
/// message of a creation, handed to the entry point of a deployment with
/// the same token sub-system, do what the creation does on those accounts
/// with those arguments.
pub proof fn lemma_create_order_is_read(
    a: CreateOrder,
    ids: ProgramIds,
    ctx: Context,
    accounts: Map<Pubkey, Account>,
    escrow_bump: u8,
    base_amount: u64,
    quote_amount: u64,
    start_date: Option<i64>,
    expire_date: i64,
)
    requires
        ctx.token_program == ids.token_program,
    ensures
        process_instruction_spec(
            accounts,
            ctx,
            a.spec_account_metas(ids),
            (OrderInstruction::CreateOrder {
                escrow_bump,
                base_amount,
                quote_amount,
                start_date,
                expire_date,
            }).spec_pack(),
        ) == a.process_spec(
            accounts,
            ctx,
            escrow_bump,
            base_amount,
            quote_amount,
            start_date,
            expire_date,
        ),
{
    lemma_instruction_pack_unpack(
        OrderInstruction::CreateOrder {
            escrow_bump,
            base_amount,
            quote_amount,
            start_date,
            expire_date,
        },
    );
    let metas = a.spec_account_metas(ids);
    assert(CreateOrder::spec_from_account_metas(metas, ctx) == Ok::<CreateOrder, InstructionError>(a))
        by {
        let signers = seq![0int, 1];
        let writable = seq![0int, 1, 3, 4, 5];
        assert forall|i: int| 0 <= i < signers.len() implies (#[trigger] metas[signers[i]]).is_signer by {
            assert(i == 0 || i == 1);
        }
        assert forall|i: int| 0 <= i < writable.len() implies (
        #[trigger] metas[writable[i]]).is_writable by {
            assert(i == 0 || i == 1 || i == 2 || i == 3 || i == 4);
        }
    }
}

/// What the client writes, the program reads: the list of accounts and the
/// message of a cancellation do what the cancellation does.
pub proof fn lemma_cancel_order_is_read(
    a: CancelOrder,
    ids: ProgramIds,
    ctx: Context,
    accounts: Map<Pubkey, Account>,
    escrow_bump: u8,
)
    requires
        ctx.token_program == ids.token_program,
    ensures
        process_instruction_spec(
            accounts,
            ctx,
            a.spec_account_metas(ids),
            (OrderInstruction::CancelOrder { escrow_bump }).spec_pack(),
        ) == a.process_spec(accounts, ctx, escrow_bump),
{
    lemma_instruction_pack_unpack(OrderInstruction::CancelOrder { escrow_bump });
    let metas = a.spec_account_metas(ids);
    assert(CancelOrder::spec_from_account_metas(metas, ctx) == Ok::<CancelOrder, InstructionError>(a))
        by {
        let signers = seq![1int];
        let writable = seq![0int, 1, 2, 3];
        assert forall|i: int| 0 <= i < signers.len() implies (#[trigger] metas[signers[i]]).is_signer by {
            assert(i == 0);
        }
        assert forall|i: int| 0 <= i < writable.len() implies (
        #[trigger] metas[writable[i]]).is_writable by {
            assert(i == 0 || i == 1 || i == 2 || i == 3);
        }
    }
}

/// What the client writes, the program reads: the list of accounts and the
/// message of an execution do what the execution does.
pub proof fn lemma_execute_order_is_read(
    a: ExecuteOrder,
    ids: ProgramIds,
    ctx: Context,
    accounts: Map<Pubkey, Account>,
    escrow_bump: u8,
)
    requires
        ctx.token_program == ids.token_program,
    ensures
        process_instruction_spec(
            accounts,
            ctx,
            a.spec_account_metas(ids),
            (OrderInstruction::ExecuteOrder { escrow_bump }).spec_pack(),
        ) == a.process_spec(accounts, ctx, escrow_bump),
{
    lemma_instruction_pack_unpack(OrderInstruction::ExecuteOrder { escrow_bump });
    let metas = a.spec_account_metas(ids);
    assert(ExecuteOrder::spec_from_account_metas(metas, ctx) == Ok::<
        ExecuteOrder,
        InstructionError,
    >(a)) by {
        let signers = seq![2int];
        let writable = seq![0int, 1, 2, 3, 4, 5, 6];
        assert forall|i: int| 0 <= i < signers.len() implies (#[trigger] metas[signers[i]]).is_signer by {
            assert(i == 0);
        }
        assert forall|i: int| 0 <= i < writable.len() implies (
        #[trigger] metas[writable[i]]).is_writable by {
            assert(i == 0 || i == 1 || i == 2 || i == 3 || i == 4 || i == 5 || i == 6);
        }
    }
}

/// Whether an order belongs to the history that is asked for: it is the
/// funder's, and it has the status, where one is named.
pub open spec fn in_history(order: Order, funder: Pubkey, order_status: Option<OrderStatus>) -> bool {
    order.funder == funder && (order_status is Some ==> order.status == order_status->0)
}

/// Whether the given order belongs to the history that is asked for.
fn belongs(order: &Order, funder: &Pubkey, order_status: Option<OrderStatus>) -> (r: bool)
    ensures
        r == in_history(*order, *funder, order_status),
{
    if order.funder != *funder {
        return false;
    }
    match order_status {
        Some(status) => order.status == status,
        None => true,
    }
}

/// The orders of `funder` among the accounts of the program `program_id`
/// that have the status asked for, or all of them where none is asked for:
/// each with its address, each once.
pub fn get_orders_history(
    ledger: &Ledger,
    program_id: &Pubkey,
    funder: &Pubkey,
    order_status: Option<OrderStatus>,
) -> (r: Vec<(Pubkey, Order)>)
    ensures
        forall|i: int|
            0 <= i < r@.len() ==> is_order_of(ledger@, (#[trigger] r@[i]).0, *program_id) && r@[i].1
                == order_of(ledger@, r@[i].0) && in_history(r@[i].1, *funder, order_status),
        forall|k: Pubkey|
            is_order_of(ledger@, k, *program_id) && in_history(
                order_of(ledger@, k),
                *funder,
                order_status,
            ) ==> exists|i: int| 0 <= i < r@.len() && (#[trigger] r@[i]).0 == k,
        forall|i: int, j: int|
            0 <= i < j < r@.len() ==> (#[trigger] r@[i]).0 != (#[trigger] r@[j]).0,
{
    let keys = ledger.keys();
    let mut r: Vec<(Pubkey, Order)> = Vec::new();
    let mut at: usize = 0;
    while at < keys.len()
        invariant
            at <= keys@.len(),
            keys@.no_duplicates(),
            forall|k: Pubkey| keys@.contains(k) <==> ledger@.contains_key(k),
            forall|i: int|
                0 <= i < r@.len() ==> is_order_of(ledger@, (#[trigger] r@[i]).0, *program_id)
                    && r@[i].1 == order_of(ledger@, r@[i].0) && in_history(
                    r@[i].1,
                    *funder,
                    order_status,
                ),
            forall|i: int|
                0 <= i < r@.len() ==> exists|p: int| 0 <= p < at && keys@[p] == (#[trigger] r@[i]).0,
            forall|p: int|
                0 <= p < at && is_order_of(ledger@, #[trigger] keys@[p], *program_id) && in_history(
                    order_of(ledger@, keys@[p]),
                    *funder,
                    order_status,
                ) ==> exists|i: int| 0 <= i < r@.len() && (#[trigger] r@[i]).0 == keys@[p],
            forall|i: int, j: int|
                0 <= i < j < r@.len() ==> (#[trigger] r@[i]).0 != (#[trigger] r@[j]).0,
        decreases keys@.len() - at,
    {
        let key = keys[at];
        let ghost before = r@;
        if let Some(account) = ledger.get(&key) {
            if let AccountData::Order(order) = account.data {
                if account.owner == *program_id && belongs(&order, funder, order_status) {
                    r.push((key, order));
                    proof {
                        let last = before.len() as int;
                        assert(r@[last].0 == key);
                        assert forall|i: int, j: int| 0 <= i < j < r@.len() implies (
                        #[trigger] r@[i]).0 != (#[trigger] r@[j]).0 by {
                            if j == last {
                                let p = choose|p: int| 0 <= p < at && keys@[p] == before[i].0;
                                assert(keys@[p] != keys@[at as int]);
                            } else {
                                assert(before[i].0 != before[j].0);
                            }
                        }
                        assert forall|i: int| 0 <= i < r@.len() implies exists|p: int|
                            0 <= p < at + 1 && keys@[p] == (#[trigger] r@[i]).0 by {
                            if i == last {
                                assert(keys@[at as int] == r@[i].0);
                            } else {
                                let p = choose|p: int| 0 <= p < at && keys@[p] == before[i].0;
                                assert(keys@[p] == r@[i].0);
                            }
                        }
                    }
                }
            }
        }
        proof {
            assert forall|p: int|
                0 <= p < at + 1 && is_order_of(ledger@, #[trigger] keys@[p], *program_id)
                    && in_history(
                    order_of(ledger@, keys@[p]),
                    *funder,
                    order_status,
                ) implies exists|i: int| 0 <= i < r@.len() && (#[trigger] r@[i]).0 == keys@[p] by {
                if p < at {
                    let i = choose|i: int| 0 <= i < before.len() && (#[trigger] before[i]).0 == keys@[p];
                    assert(r@[i].0 == keys@[p]);
                } else {
                    assert(r@[before.len() as int].0 == keys@[p]);
                }
            }
        }
        at += 1;
    }
    proof {
        assert forall|k: Pubkey|
            is_order_of(ledger@, k, *program_id) && in_history(
                order_of(ledger@, k),
                *funder,
                order_status,
            ) implies exists|i: int| 0 <= i < r@.len() && (#[trigger] r@[i]).0 == k by {
            assert(keys@.contains(k));
            let p = choose|p: int| 0 <= p < keys@.len() && keys@[p] == k;
            assert(is_order_of(ledger@, keys@[p], *program_id));
        }
    }
    r
}

/// Whether the stored bytes of an account pass the question for the
/// history: they have the length of an order record, the funder's address
/// stands at `FUNDER_OFFSET`, and the byte of the status, where one is asked
/// for, at `STATUS_OFFSET`.
pub open spec fn selects(funder: Pubkey, order_status: Option<OrderStatus>, data: Seq<u8>) -> bool {
    &&& data.len() == Order::LEN
    &&& data.subrange(FUNDER_OFFSET as int, FUNDER_OFFSET + 32) == funder@
    &&& order_status is Some ==> data[STATUS_OFFSET as int] == order_status->0.spec_tag()
}

/// The question selects the stored records of the history, and no other
/// stored record.
pub proof fn lemma_selects_history(order: Order, funder: Pubkey, order_status: Option<OrderStatus>)
    ensures
        selects(funder, order_status, order.spec_pack()) <==> in_history(
            order,
            funder,
            order_status,
        ),
{
    lemma_pack_unpack(order);
    if order.funder@ == funder@ {
        crate::pubkey::lemma_pubkey_ext(order.funder, funder);
    }
}

/// What `bs58::encode` with its default alphabet makes of the bytes, as a
/// string.
pub uninterp spec fn base58_text(bytes: Seq<u8>) -> Seq<char>;

/// `bs58::encode(..).into_string()`: the bytes written in base 58 with the
/// crate's default alphabet. The text depends on the bytes alone; it is not
/// stated beyond that.
#[verifier::external_body]
fn base58(bytes: &[u8]) -> (text: String)
    ensures
        text@ == base58_text(bytes@),
{
    bs58::encode(bytes).into_string()
}

/// A condition on the stored bytes of an account: from `offset` on they are
/// the bytes that `bytes` writes in base 58.
#[derive(Debug, PartialEq, Eq)]
pub struct ByteFilter {
    pub offset: usize,
    pub bytes: String,
}

/// The question for a history of orders: the accounts of the program whose
/// stored bytes have the length `data_size` and meet every one of `filters`;
/// of each, the first `slice_length` bytes are asked for.
#[derive(Debug, PartialEq, Eq)]
pub struct OrdersQuery {
    pub data_size: u64,
    pub filters: Vec<ByteFilter>,
    pub slice_length: usize,
}

/// The question for the orders of a funder, from the funder's address and,
/// where a status is asked for, the byte of the status, both written in
/// base 58 already.
pub fn orders_query(funder_text: String, status_text: Option<String>) -> (q: OrdersQuery)
    ensures
        q.data_size == Order::LEN,
        q.slice_length == Order::LEN,
        q.filters@.len() == (if status_text is Some {
            2int
        } else {
            1int
        }),
        q.filters@[0].offset == FUNDER_OFFSET,
        q.filters@[0].bytes@ == funder_text@,
        status_text is Some ==> q.filters@[1].offset == STATUS_OFFSET && q.filters@[1].bytes@
            == status_text->0@,
{
    let mut filters: Vec<ByteFilter> = Vec::new();
    filters.push(ByteFilter { offset: FUNDER_OFFSET, bytes: funder_text });
    if let Some(text) = status_text {
        filters.push(ByteFilter { offset: STATUS_OFFSET, bytes: text });
    }
    OrdersQuery { data_size: Order::LEN as u64, filters, slice_length: Order::LEN }
}

/// The question for the orders of `funder` that have the status asked for,
/// or for all of them where none is asked for.
pub fn orders_history_query(funder: &Pubkey, order_status: Option<OrderStatus>) -> (q: OrdersQuery)
    ensures
        q.data_size == Order::LEN,
        q.slice_length == Order::LEN,
        q.filters@.len() == (if order_status is Some {
            2int
        } else {
            1int
        }),
        q.filters@[0].offset == FUNDER_OFFSET,
        q.filters@[0].bytes@ == base58_text(funder@),
        order_status is Some ==> q.filters@[1].offset == STATUS_OFFSET && q.filters@[1].bytes@
            == base58_text(seq![order_status->0.spec_tag()]),
{
    let funder_text = base58(funder.bytes.as_slice());
    let status_text = match order_status {
        Some(status) => {
            let tag: [u8; 1] = [status.tag()];
            assert(tag@ =~= seq![status.spec_tag()]);
            Some(base58(tag.as_slice()))
        },
        None => None,
    };
    orders_query(funder_text, status_text)
}

/// The order records that the stored bytes of accounts hold, each read
/// without a look at its first eight bytes. `None` where one of them holds
/// no record.
pub fn decode_orders(accounts: &Vec<(Pubkey, Vec<u8>)>) -> (r: Option<Vec<(Pubkey, Order)>>)
    ensures
        r is Some <==> forall|i: int|
            0 <= i < accounts@.len() ==> Order::spec_unpack_unchecked(
                (#[trigger] accounts@[i]).1@,
            ) is Some,
        r is Some ==> r->0@.len() == accounts@.len() && forall|i: int|
            0 <= i < accounts@.len() ==> (#[trigger] r->0@[i]).0 == accounts@[i].0 && Some(
                r->0@[i].1,
            ) == Order::spec_unpack_unchecked(accounts@[i].1@),
{
    let mut orders: Vec<(Pubkey, Order)> = Vec::new();
    let mut at: usize = 0;
    while at < accounts.len()
        invariant
            at <= accounts@.len(),
            orders@.len() == at,
            forall|i: int|
                0 <= i < at ==> Order::spec_unpack_unchecked((#[trigger] accounts@[i]).1@) is Some,
            forall|i: int|
                0 <= i < at ==> (#[trigger] orders@[i]).0 == accounts@[i].0 && Some(orders@[i].1)
                    == Order::spec_unpack_unchecked(accounts@[i].1@),
        decreases accounts@.len() - at,
    {
        match Order::unpack_unchecked(accounts[at].1.as_slice()) {
            Some(order) => {
                orders.push((accounts[at].0, order));
            },
            None => {
                return None;
            },
        }
        at += 1;
    }
    Some(orders)
}

/// How long an order lasts where the client names no expire date: an hour,
/// in seconds.
pub const DEFAULT_ORDER_LIFETIME: i64 = 3600;

/// The expire date of a new order at time `now`, a reading of the client's
/// clock: the one that the client names, else an hour after `now`. `None`
/// where that lies beyond the largest date.
pub open spec fn spec_expire_date_at(given: Option<i64>, now: i64) -> Option<i64> {
    match given {
        Some(date) => Some(date),
        None => if now + DEFAULT_ORDER_LIFETIME <= i64::MAX {
            Some((now + DEFAULT_ORDER_LIFETIME) as i64)
        } else {
            None
        },
    }
}

/// The expire date of a new order at time `now`.
#[verifier::when_used_as_spec(spec_expire_date_at)]
pub fn expire_date_at(given: Option<i64>, now: i64) -> (r: Option<i64>)
    ensures
        r == spec_expire_date_at(given, now),
{
    match given {
        Some(date) => Some(date),
        None => now.checked_add(DEFAULT_ORDER_LIFETIME),
    }
}

} // verus!
