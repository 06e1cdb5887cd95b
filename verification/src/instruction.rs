//! The instructions as messages: the bytes that carry the arguments, the
//! list of accounts with their roles, and the entry point that reads both.

use vstd::prelude::*;
use crate::context::{CancelOrder, Context, CreateOrder, ExecuteOrder};
use crate::error::InstructionError;
use crate::ledger::{Account, Ledger};
use crate::plan::{carry_out, Step};
use crate::processor::cancel_order::lemma_cancel_order_plan;
use crate::processor::create_order::lemma_create_order_plan;
use crate::processor::execute_order::lemma_execute_order_plan;
use crate::processor::instruction_step;
use crate::pubkey::Pubkey;
use crate::wire::{
    date_bytes, get_i64, get_u64, has_tag, i64_bytes, i64_of, lemma_number_bytes, put_bytes,
    put_date, put_i64, put_u64, spec_has_tag, u64_bytes, u64_of,
};

verus! {

/// The eight bytes that a `CreateOrder` message begins with.
pub const CREATE_ORDER_TAG: [u8; 8] = [141, 54, 37, 207, 237, 210, 250, 215];

/// The eight bytes that a `CancelOrder` message begins with.
pub const CANCEL_ORDER_TAG: [u8; 8] = [95, 129, 237, 240, 8, 49, 223, 132];

/// The eight bytes that an `ExecuteOrder` message begins with.
pub const EXECUTE_ORDER_TAG: [u8; 8] = [115, 61, 180, 24, 168, 32, 215, 20];

/// An instruction with its arguments.
#[derive(Clone, Copy, Debug, PartialEq, Eq)]
pub enum OrderInstruction {
    /// Create an order.
    CreateOrder {
        escrow_bump: u8,
        base_amount: u64,
        quote_amount: u64,
        start_date: Option<i64>,
        expire_date: i64,
    },
    /// Cancel an order.
    CancelOrder { escrow_bump: u8 },
    /// Execute an order.
    ExecuteOrder { escrow_bump: u8 },
}

impl OrderInstruction {
    /// The message that carries the instruction: its tag, then its
    /// arguments one after the other.
    pub open spec fn spec_pack(&self) -> Seq<u8> {
        match *self {
            OrderInstruction::CreateOrder {
                escrow_bump,
                base_amount,
                quote_amount,
                start_date,
                expire_date,
            } => CREATE_ORDER_TAG@ + seq![escrow_bump] + u64_bytes(base_amount) + u64_bytes(
                quote_amount,
            ) + date_bytes(start_date) + i64_bytes(expire_date),
            OrderInstruction::CancelOrder { escrow_bump } => CANCEL_ORDER_TAG@ + seq![escrow_bump],
            OrderInstruction::ExecuteOrder { escrow_bump } => EXECUTE_ORDER_TAG@ + seq![
                escrow_bump,
            ],
        }
    }

    /// The instruction that a message carries. Bytes after the arguments
    /// are not looked at. A message without the tag of an instruction is
    /// unknown; one that ends before its arguments do, or whose start date
    /// bears a mark other than 0 and 1, is malformed.
    pub open spec fn spec_unpack(data: Seq<u8>) -> Result<OrderInstruction, InstructionError> {
        if spec_has_tag(data, CREATE_ORDER_TAG@) {
            if data.len() < 34 || data[25] > 1 || (data[25] == 1 && data.len() < 42) {
                Err(InstructionError::MalformedInstruction)
            } else {
                Ok(
                    OrderInstruction::CreateOrder {
                        escrow_bump: data[8],
                        base_amount: u64_of(data.subrange(9, 17)),
                        quote_amount: u64_of(data.subrange(17, 25)),
                        start_date: if data[25] == 1 {
                            Some(i64_of(data.subrange(26, 34)))
                        } else {
                            None
                        },
                        expire_date: if data[25] == 1 {
                            i64_of(data.subrange(34, 42))
                        } else {
                            i64_of(data.subrange(26, 34))
                        },
                    },
                )
            }
        } else if spec_has_tag(data, CANCEL_ORDER_TAG@) {
            if data.len() < 9 {
                Err(InstructionError::MalformedInstruction)
            } else {
                Ok(OrderInstruction::CancelOrder { escrow_bump: data[8] })
            }
        } else if spec_has_tag(data, EXECUTE_ORDER_TAG@) {
            if data.len() < 9 {
                Err(InstructionError::MalformedInstruction)
            } else {
                Ok(OrderInstruction::ExecuteOrder { escrow_bump: data[8] })
            }
        } else {
            Err(InstructionError::UnknownInstruction)
        }
    }

    /// The message that carries the instruction.
    pub fn pack(&self) -> (out: Vec<u8>)
        ensures
            out@ == self.spec_pack(),
    {
        let mut out: Vec<u8> = Vec::new();
        match *self {
            OrderInstruction::CreateOrder {
                escrow_bump,
                base_amount,
                quote_amount,
                start_date,
                expire_date,
            } => {
                put_bytes(&mut out, CREATE_ORDER_TAG.as_slice());
                out.push(escrow_bump);
                put_u64(&mut out, base_amount);
                put_u64(&mut out, quote_amount);
                put_date(&mut out, start_date);
                put_i64(&mut out, expire_date);
            },
            OrderInstruction::CancelOrder { escrow_bump } => {
                put_bytes(&mut out, CANCEL_ORDER_TAG.as_slice());
                out.push(escrow_bump);
            },
            OrderInstruction::ExecuteOrder { escrow_bump } => {
                put_bytes(&mut out, EXECUTE_ORDER_TAG.as_slice());
                out.push(escrow_bump);
            },
        }
        assert(out@ =~= self.spec_pack());
        out
    }

    /// Reads the instruction that a message carries.
    pub fn unpack(data: &[u8]) -> (r: Result<OrderInstruction, InstructionError>)
        ensures
            r == OrderInstruction::spec_unpack(data@),
    {
        if has_tag(data, &CREATE_ORDER_TAG) {
            if data.len() < 34 {
                return Err(InstructionError::MalformedInstruction);
            }
            let mark = data[25];
            if mark > 1 || (mark == 1 && data.len() < 42) {
                return Err(InstructionError::MalformedInstruction);
            }
            let (start_date, expire_date) = if mark == 1 {
                (Some(get_i64(data, 26)), get_i64(data, 34))
            } else {
                (None, get_i64(data, 26))
            };
            Ok(
                OrderInstruction::CreateOrder {
                    escrow_bump: data[8],
                    base_amount: get_u64(data, 9),
                    quote_amount: get_u64(data, 17),
                    start_date,
                    expire_date,
                },
            )
        } else if has_tag(data, &CANCEL_ORDER_TAG) {
            if data.len() < 9 {
                return Err(InstructionError::MalformedInstruction);
            }
            Ok(OrderInstruction::CancelOrder { escrow_bump: data[8] })
        } else if has_tag(data, &EXECUTE_ORDER_TAG) {
            if data.len() < 9 {
                return Err(InstructionError::MalformedInstruction);
            }
            Ok(OrderInstruction::ExecuteOrder { escrow_bump: data[8] })
        } else {
            Err(InstructionError::UnknownInstruction)
        }
    }
}

/// A message reads back as the instruction that was written.
pub proof fn lemma_instruction_pack_unpack(instruction: OrderInstruction)
    ensures
        OrderInstruction::spec_unpack(instruction.spec_pack()) == Ok::<
            OrderInstruction,
            InstructionError,
        >(instruction),
{
    let data = instruction.spec_pack();
    match instruction {
        OrderInstruction::CreateOrder {
            escrow_bump,
            base_amount,
            quote_amount,
            start_date,
            expire_date,
        } => {
            lemma_number_bytes(base_amount, expire_date);
            lemma_number_bytes(quote_amount, expire_date);
            if start_date is Some {
                lemma_number_bytes(0, start_date->0);
            }
            assert(data.subrange(0, 8) =~= CREATE_ORDER_TAG@);
            assert(data.subrange(9, 17) =~= u64_bytes(base_amount));
            assert(data.subrange(17, 25) =~= u64_bytes(quote_amount));
            if start_date is Some {
                assert(data.subrange(26, 34) =~= i64_bytes(start_date->0));
                assert(data.subrange(34, 42) =~= i64_bytes(expire_date));
            } else {
                assert(data.subrange(26, 34) =~= i64_bytes(expire_date));
            }
        },
        OrderInstruction::CancelOrder { escrow_bump } => {
            assert(data.subrange(0, 8) =~= CANCEL_ORDER_TAG@);
            assert(CANCEL_ORDER_TAG@[0] != CREATE_ORDER_TAG@[0]);
        },
        OrderInstruction::ExecuteOrder { escrow_bump } => {
            assert(data.subrange(0, 8) =~= EXECUTE_ORDER_TAG@);
            assert(EXECUTE_ORDER_TAG@[0] != CREATE_ORDER_TAG@[0]);
            assert(EXECUTE_ORDER_TAG@[0] != CANCEL_ORDER_TAG@[0]);
        },
    }
}

/// An account as an instruction names it: its address, whether it has
/// signed, and whether the instruction may change it.
#[derive(Clone, Copy, Debug, PartialEq, Eq)]
pub struct AccountMeta {
    pub pubkey: Pubkey,
    pub is_signer: bool,
    pub is_writable: bool,
}

impl AccountMeta {
    /// An account that the instruction may change.
    pub open spec fn spec_new(pubkey: Pubkey, is_signer: bool) -> AccountMeta {
        AccountMeta { pubkey, is_signer, is_writable: true }
    }

    /// An account that the instruction may change.
    #[verifier::when_used_as_spec(spec_new)]
    pub fn new(pubkey: Pubkey, is_signer: bool) -> (m: AccountMeta)
        ensures
            m == AccountMeta::spec_new(pubkey, is_signer),
    {
        AccountMeta { pubkey, is_signer, is_writable: true }
    }

    /// An account that the instruction only reads.
    pub open spec fn spec_new_readonly(pubkey: Pubkey, is_signer: bool) -> AccountMeta {
        AccountMeta { pubkey, is_signer, is_writable: false }
    }

    /// An account that the instruction only reads.
    #[verifier::when_used_as_spec(spec_new_readonly)]
    pub fn new_readonly(pubkey: Pubkey, is_signer: bool) -> (m: AccountMeta)
        ensures
            m == AccountMeta::spec_new_readonly(pubkey, is_signer),
    {
        AccountMeta { pubkey, is_signer, is_writable: false }
    }
}

/// The addresses that a client has to know of the deployment and of the
/// ledger.
#[derive(Clone, Copy, Debug)]
pub struct ProgramIds {
    /// This program.
    pub program_id: Pubkey,
    /// The fungible-token sub-system.
    pub token_program: Pubkey,
    /// The account that carries the ledger's rent.
    pub rent_sysvar: Pubkey,
    /// The account that carries the ledger's clock.
    pub clock_sysvar: Pubkey,
}

/// Why the first `count` accounts of a list cannot play the roles that an
/// instruction gives them, if they cannot. The list must be long enough;
/// then the accounts at `signers` must have signed; then those at
/// `writable` must be open to change; then the token sub-system and the
/// system program must stand at the two last places. The accounts that
/// carry the clock and the rent are not looked at: their readings come
/// with the context.
pub open spec fn roles_error(
    metas: Seq<AccountMeta>,
    ctx: Context,
    count: int,
    signers: Seq<int>,
    writable: Seq<int>,
) -> Option<InstructionError> {
    if metas.len() < count {
        Some(InstructionError::NotEnoughAccounts)
    } else if exists|i: int| 0 <= i < signers.len() && !(#[trigger] metas[signers[i]]).is_signer {
        Some(InstructionError::MissingSignature)
    } else if exists|i: int|
        0 <= i < writable.len() && !(#[trigger] metas[writable[i]]).is_writable {
        Some(InstructionError::NotWritable)
    } else if metas[count - 2].pubkey != ctx.token_program || metas[count - 1].pubkey
        != Pubkey::spec_system() {
        Some(InstructionError::InvalidProgramId)
    } else {
        None
    }
}

fn check_roles(
    metas: &[AccountMeta],
    ctx: &Context,
    count: usize,
    signers: &[usize],
    writable: &[usize],
) -> (r: Result<(), InstructionError>)
    requires
        count >= 2,
        forall|i: int| 0 <= i < signers@.len() ==> signers@[i] < count,
        forall|i: int| 0 <= i < writable@.len() ==> writable@[i] < count,
    ensures
        match roles_error(
            metas@,
            *ctx,
            count as int,
            signers@.map_values(|i: usize| i as int),
            writable@.map_values(|i: usize| i as int),
        ) {
            Some(e) => r == Err::<(), InstructionError>(e),
            None => r is Ok,
        },
{
    let ghost signer_places = signers@.map_values(|i: usize| i as int);
    let ghost writable_places = writable@.map_values(|i: usize| i as int);
    if metas.len() < count {
        return Err(InstructionError::NotEnoughAccounts);
    }
    let mut i: usize = 0;
    while i < signers.len()
        invariant
            i <= signers@.len(),
            count <= metas@.len(),
            signer_places == signers@.map_values(|i: usize| i as int),
            forall|j: int| 0 <= j < signers@.len() ==> signers@[j] < count,
            forall|j: int| 0 <= j < i ==> (#[trigger] metas@[signer_places[j]]).is_signer,
        decreases signers@.len() - i,
    {
        if !metas[signers[i]].is_signer {
            assert(!metas@[signer_places[i as int]].is_signer);
            return Err(InstructionError::MissingSignature);
        }
        i += 1;
    }
    let mut i: usize = 0;
    while i < writable.len()
        invariant
            i <= writable@.len(),
            count <= metas@.len(),
            writable_places == writable@.map_values(|i: usize| i as int),
            signer_places == signers@.map_values(|i: usize| i as int),
            forall|j: int| 0 <= j < signers@.len() ==> signers@[j] < count,
            forall|j: int|
                0 <= j < signer_places.len() ==> (#[trigger] metas@[signer_places[j]]).is_signer,
            forall|j: int| 0 <= j < writable@.len() ==> writable@[j] < count,
            forall|j: int| 0 <= j < i ==> (#[trigger] metas@[writable_places[j]]).is_writable,
        decreases writable@.len() - i,
    {
        if !metas[writable[i]].is_writable {
            assert(!metas@[writable_places[i as int]].is_writable);
            return Err(InstructionError::NotWritable);
        }
        i += 1;
    }
    if metas[count - 2].pubkey != ctx.token_program || !metas[count - 1].pubkey.is_system() {
        return Err(InstructionError::InvalidProgramId);
    }
    Ok(())
}

impl CreateOrder {
    /// The accounts of the instruction in their order, with their roles:
    /// the new order account and the funder sign and change; the paying
    /// account, the escrow and the quote account change; the rest is read.
    pub open spec fn spec_account_metas(&self, ids: ProgramIds) -> Seq<AccountMeta> {
        seq![
            AccountMeta::spec_new(self.order, true),
            AccountMeta::spec_new(self.funder, true),
            AccountMeta::spec_new_readonly(self.recipient, false),
            AccountMeta::spec_new(self.funder_token_account, false),
            AccountMeta::spec_new(self.escrow, false),
            AccountMeta::spec_new(self.quote_token_account, false),
            AccountMeta::spec_new_readonly(self.escrow_mint, false),
            AccountMeta::spec_new_readonly(self.quote_mint, false),
            AccountMeta::spec_new_readonly(ids.rent_sysvar, false),
            AccountMeta::spec_new_readonly(ids.clock_sysvar, false),
            AccountMeta::spec_new_readonly(ids.token_program, false),
            AccountMeta::spec_new_readonly(Pubkey::spec_system(), false),
        ]
    }

    /// The accounts of the instruction in their order, with their roles.
    pub fn to_account_metas(&self, ids: &ProgramIds) -> (metas: Vec<AccountMeta>)
        ensures
            metas@ == self.spec_account_metas(*ids),
    {
        let mut metas: Vec<AccountMeta> = Vec::new();
        metas.push(AccountMeta::new(self.order, true));
        metas.push(AccountMeta::new(self.funder, true));
        metas.push(AccountMeta::new_readonly(self.recipient, false));
        metas.push(AccountMeta::new(self.funder_token_account, false));
        metas.push(AccountMeta::new(self.escrow, false));
        metas.push(AccountMeta::new(self.quote_token_account, false));
        metas.push(AccountMeta::new_readonly(self.escrow_mint, false));
        metas.push(AccountMeta::new_readonly(self.quote_mint, false));
        metas.push(AccountMeta::new_readonly(ids.rent_sysvar, false));
        metas.push(AccountMeta::new_readonly(ids.clock_sysvar, false));
        metas.push(AccountMeta::new_readonly(ids.token_program, false));
        metas.push(AccountMeta::new_readonly(Pubkey::system(), false));
        assert(metas@ =~= self.spec_account_metas(*ids));
        metas
    }

    /// The accounts that a list names for the instruction, or why the list
    /// does not do.
    pub open spec fn spec_from_account_metas(metas: Seq<AccountMeta>, ctx: Context) -> Result<
        CreateOrder,
        InstructionError,
    > {
        match roles_error(metas, ctx, 12, seq![0int, 1], seq![0int, 1, 3, 4, 5]) {
            Some(e) => Err(e),
            None => Ok(
                CreateOrder {
                    order: metas[0].pubkey,
                    funder: metas[1].pubkey,
                    recipient: metas[2].pubkey,
                    funder_token_account: metas[3].pubkey,
                    escrow: metas[4].pubkey,
                    quote_token_account: metas[5].pubkey,
                    escrow_mint: metas[6].pubkey,
                    quote_mint: metas[7].pubkey,
                },
            ),
        }
    }

    /// Reads the accounts of the instruction from a list.
    pub fn from_account_metas(metas: &[AccountMeta], ctx: &Context) -> (r: Result<
        CreateOrder,
        InstructionError,
    >)
        ensures
            r == CreateOrder::spec_from_account_metas(metas@, *ctx),
    {
        let signers: [usize; 2] = [0, 1];
        let writable: [usize; 5] = [0, 1, 3, 4, 5];
        proof {
            assert(signers@.map_values(|i: usize| i as int) =~= seq![0int, 1]);
            assert(writable@.map_values(|i: usize| i as int) =~= seq![0int, 1, 3, 4, 5]);
        }
        check_roles(metas, ctx, 12, signers.as_slice(), writable.as_slice())?;
        Ok(
            CreateOrder {
                order: metas[0].pubkey,
                funder: metas[1].pubkey,
                recipient: metas[2].pubkey,
                funder_token_account: metas[3].pubkey,
                escrow: metas[4].pubkey,
                quote_token_account: metas[5].pubkey,
                escrow_mint: metas[6].pubkey,
                quote_mint: metas[7].pubkey,
            },
        )
    }
}

impl CancelOrder {
    /// The accounts of the instruction in their order, with their roles:
    /// the funder signs; the order, the funder, the receiving account and
    /// the escrow change; the rest is read.
    pub open spec fn spec_account_metas(&self, ids: ProgramIds) -> Seq<AccountMeta> {
        seq![
            AccountMeta::spec_new(self.order, false),
            AccountMeta::spec_new(self.funder, true),
            AccountMeta::spec_new(self.funder_token_account, false),
            AccountMeta::spec_new(self.escrow, false),
            AccountMeta::spec_new_readonly(ids.token_program, false),
            AccountMeta::spec_new_readonly(Pubkey::spec_system(), false),
        ]
    }

    /// The accounts of the instruction in their order, with their roles.
    pub fn to_account_metas(&self, ids: &ProgramIds) -> (metas: Vec<AccountMeta>)
        ensures
            metas@ == self.spec_account_metas(*ids),
    {
        let mut metas: Vec<AccountMeta> = Vec::new();
        metas.push(AccountMeta::new(self.order, false));
        metas.push(AccountMeta::new(self.funder, true));
        metas.push(AccountMeta::new(self.funder_token_account, false));
        metas.push(AccountMeta::new(self.escrow, false));
        metas.push(AccountMeta::new_readonly(ids.token_program, false));
        metas.push(AccountMeta::new_readonly(Pubkey::system(), false));
        assert(metas@ =~= self.spec_account_metas(*ids));
        metas
    }

    /// The accounts that a list names for the instruction, or why the list
    /// does not do.
    pub open spec fn spec_from_account_metas(metas: Seq<AccountMeta>, ctx: Context) -> Result<
        CancelOrder,
        InstructionError,
    > {
        match roles_error(metas, ctx, 6, seq![1int], seq![0int, 1, 2, 3]) {
            Some(e) => Err(e),
            None => Ok(
                CancelOrder {
                    order: metas[0].pubkey,
                    funder: metas[1].pubkey,
                    funder_token_account: metas[2].pubkey,
                    escrow: metas[3].pubkey,
                },
            ),
        }
    }

    /// Reads the accounts of the instruction from a list.
    pub fn from_account_metas(metas: &[AccountMeta], ctx: &Context) -> (r: Result<
        CancelOrder,
        InstructionError,
    >)
        ensures
            r == CancelOrder::spec_from_account_metas(metas@, *ctx),
    {
        let signers: [usize; 1] = [1];
        let writable: [usize; 4] = [0, 1, 2, 3];
        proof {
            assert(signers@.map_values(|i: usize| i as int) =~= seq![1int]);
            assert(writable@.map_values(|i: usize| i as int) =~= seq![0int, 1, 2, 3]);
        }
        check_roles(metas, ctx, 6, signers.as_slice(), writable.as_slice())?;
        Ok(
            CancelOrder {
                order: metas[0].pubkey,
                funder: metas[1].pubkey,
                funder_token_account: metas[2].pubkey,
                escrow: metas[3].pubkey,
            },
        )
    }
}

impl ExecuteOrder {
    /// The accounts of the instruction in their order, with their roles:
    /// the recipient signs; the order, the funder, the recipient, the
    /// recipient's two accounts, the escrow and the quote account change;
    /// the rest is read.
    pub open spec fn spec_account_metas(&self, ids: ProgramIds) -> Seq<AccountMeta> {
        seq![
            AccountMeta::spec_new(self.order, false),
            AccountMeta::spec_new(self.funder, false),
            AccountMeta::spec_new(self.recipient, true),
            AccountMeta::spec_new(self.recipient_token_account, false),
            AccountMeta::spec_new(self.recipient_receive_token_account, false),
            AccountMeta::spec_new(self.escrow, false),
            AccountMeta::spec_new(self.quote_token_account, false),
            AccountMeta::spec_new_readonly(ids.clock_sysvar, false),
            AccountMeta::spec_new_readonly(ids.token_program, false),
            AccountMeta::spec_new_readonly(Pubkey::spec_system(), false),
        ]
    }

    /// The accounts of the instruction in their order, with their roles.
    pub fn to_account_metas(&self, ids: &ProgramIds) -> (metas: Vec<AccountMeta>)
        ensures
            metas@ == self.spec_account_metas(*ids),
    {
        let mut metas: Vec<AccountMeta> = Vec::new();
        metas.push(AccountMeta::new(self.order, false));
        metas.push(AccountMeta::new(self.funder, false));
        metas.push(AccountMeta::new(self.recipient, true));
        metas.push(AccountMeta::new(self.recipient_token_account, false));
        metas.push(AccountMeta::new(self.recipient_receive_token_account, false));
        metas.push(AccountMeta::new(self.escrow, false));
        metas.push(AccountMeta::new(self.quote_token_account, false));
        metas.push(AccountMeta::new_readonly(ids.clock_sysvar, false));
        metas.push(AccountMeta::new_readonly(ids.token_program, false));
        metas.push(AccountMeta::new_readonly(Pubkey::system(), false));
        assert(metas@ =~= self.spec_account_metas(*ids));
        metas
    }

    /// The accounts that a list names for the instruction, or why the list
    /// does not do.
    pub open spec fn spec_from_account_metas(metas: Seq<AccountMeta>, ctx: Context) -> Result<
        ExecuteOrder,
        InstructionError,
    > {
        match roles_error(metas, ctx, 10, seq![2int], seq![0int, 1, 2, 3, 4, 5, 6]) {
            Some(e) => Err(e),
            None => Ok(
                ExecuteOrder {
                    order: metas[0].pubkey,
                    funder: metas[1].pubkey,
                    recipient: metas[2].pubkey,
                    recipient_token_account: metas[3].pubkey,
                    recipient_receive_token_account: metas[4].pubkey,
                    escrow: metas[5].pubkey,
                    quote_token_account: metas[6].pubkey,
                },
            ),
        }
    }

    /// Reads the accounts of the instruction from a list.
    pub fn from_account_metas(metas: &[AccountMeta], ctx: &Context) -> (r: Result<
        ExecuteOrder,
        InstructionError,
    >)
        ensures
            r == ExecuteOrder::spec_from_account_metas(metas@, *ctx),
    {
        let signers: [usize; 1] = [2];
        let writable: [usize; 7] = [0, 1, 2, 3, 4, 5, 6];
        proof {
            assert(signers@.map_values(|i: usize| i as int) =~= seq![2int]);
            assert(writable@.map_values(|i: usize| i as int) =~= seq![0int, 1, 2, 3, 4, 5, 6]);
        }
        check_roles(metas, ctx, 10, signers.as_slice(), writable.as_slice())?;
        Ok(
            ExecuteOrder {
                order: metas[0].pubkey,
                funder: metas[1].pubkey,
                recipient: metas[2].pubkey,
                recipient_token_account: metas[3].pubkey,
                recipient_receive_token_account: metas[4].pubkey,
                escrow: metas[5].pubkey,
                quote_token_account: metas[6].pubkey,
            },
        )
    }
}

/// What an instruction, handed in as a list of accounts and a message,
/// does to the accounts, or why it is refused: the message is read first,
/// then the roles of the accounts are checked, then the instruction runs.
pub open spec fn process_instruction_spec(
    accounts: Map<Pubkey, Account>,
    ctx: Context,
    metas: Seq<AccountMeta>,
    data: Seq<u8>,
) -> Result<Map<Pubkey, Account>, InstructionError> {
    match OrderInstruction::spec_unpack(data) {
        Err(e) => Err(e),
        Ok(
            OrderInstruction::CreateOrder {
                escrow_bump,
                base_amount,
                quote_amount,
                start_date,
                expire_date,
            },
        ) => match CreateOrder::spec_from_account_metas(metas, ctx) {
            Err(e) => Err(e),
            Ok(a) => a.process_spec(
                accounts,
                ctx,
                escrow_bump,
                base_amount,
                quote_amount,
                start_date,
                expire_date,
            ),
        },
        Ok(OrderInstruction::CancelOrder { escrow_bump }) => match CancelOrder::spec_from_account_metas(
            metas,
            ctx,
        ) {
            Err(e) => Err(e),
            Ok(a) => a.process_spec(accounts, ctx, escrow_bump),
        },
        Ok(
            OrderInstruction::ExecuteOrder { escrow_bump },
        ) => match ExecuteOrder::spec_from_account_metas(metas, ctx) {
            Err(e) => Err(e),
            Ok(a) => a.process_spec(accounts, ctx, escrow_bump),
        },
    }
}

/// Runs the instruction that a list of accounts and a message stand for.
/// On any error the ledger is left as it was.
pub fn process_instruction(
    ledger: &mut Ledger,
    ctx: &Context,
    metas: &[AccountMeta],
    data: &[u8],
) -> (r: Result<(), InstructionError>)
    ensures
        instruction_step(
            old(ledger)@,
            final(ledger)@,
            r,
            process_instruction_spec(old(ledger)@, *ctx, metas@, data@),
        ),
{
    match OrderInstruction::unpack(data)? {
        OrderInstruction::CreateOrder {
            escrow_bump,
            base_amount,
            quote_amount,
            start_date,
            expire_date,
        } => {
            let accounts = CreateOrder::from_account_metas(metas, ctx)?;
            accounts.process(
                ledger,
                ctx,
                escrow_bump,
                base_amount,
                quote_amount,
                start_date,
                expire_date,
            )
        },
        OrderInstruction::CancelOrder { escrow_bump } => {
            let accounts = CancelOrder::from_account_metas(metas, ctx)?;
            accounts.process(ledger, ctx, escrow_bump)
        },
        OrderInstruction::ExecuteOrder { escrow_bump } => {
            let accounts = ExecuteOrder::from_account_metas(metas, ctx)?;
            accounts.process(ledger, ctx, escrow_bump)
        },
    }
}

/// The steps that the instruction takes which a list of accounts and a
/// message stand for, on the ledger as it stands, or the reason why it is
/// refused. Taken one after the other, the steps do to the accounts what the
/// instruction does. The ledger is not changed.
pub fn plan_instruction(
    ledger: &Ledger,
    ctx: &Context,
    metas: &[AccountMeta],
    data: &[u8],
) -> (r: Result<Vec<Step>, InstructionError>)
    ensures
        match process_instruction_spec(ledger@, *ctx, metas@, data@) {
            Ok(after) => r is Ok && carry_out(ledger@, r->Ok_0@) == Ok::<
                Map<Pubkey, Account>,
                crate::error::LedgerError,
            >(after),
            Err(e) => r == Err::<Vec<Step>, InstructionError>(e),
        },
{
    match OrderInstruction::unpack(data)? {
        OrderInstruction::CreateOrder {
            escrow_bump,
            base_amount,
            quote_amount,
            start_date,
            expire_date,
        } => {
            let accounts = CreateOrder::from_account_metas(metas, ctx)?;
            proof {
                if accounts.process_spec(
                    ledger@,
                    *ctx,
                    escrow_bump,
                    base_amount,
                    quote_amount,
                    start_date,
                    expire_date,
                ) is Ok {
                    lemma_create_order_plan(
                        accounts,
                        ledger@,
                        *ctx,
                        escrow_bump,
                        base_amount,
                        quote_amount,
                        start_date,
                        expire_date,
                    );
                }
            }
            accounts.plan(
                ledger,
                ctx,
                escrow_bump,
                base_amount,
                quote_amount,
                start_date,
                expire_date,
            )
        },
        OrderInstruction::CancelOrder { escrow_bump } => {
            let accounts = CancelOrder::from_account_metas(metas, ctx)?;
            proof {
                if accounts.process_spec(ledger@, *ctx, escrow_bump) is Ok {
                    lemma_cancel_order_plan(accounts, ledger@, *ctx, escrow_bump);
                }
            }
            accounts.plan(ledger, ctx, escrow_bump)
        },
        OrderInstruction::ExecuteOrder { escrow_bump } => {
            let accounts = ExecuteOrder::from_account_metas(metas, ctx)?;
            proof {
                if accounts.process_spec(ledger@, *ctx, escrow_bump) is Ok {
                    lemma_execute_order_plan(accounts, ledger@, *ctx, escrow_bump);
                }
            }
            accounts.plan(ledger, ctx, escrow_bump)
        },
    }
}

/// Creates an order on the accounts given.
pub fn create_order(
    ledger: &mut Ledger,
    ctx: &Context,
    accounts: &CreateOrder,
    escrow_bump: u8,
    base_amount: u64,
    quote_amount: u64,
    start_date: Option<i64>,
    expire_date: i64,
) -> (r: Result<(), InstructionError>)
    ensures
        instruction_step(
            old(ledger)@,
            final(ledger)@,
            r,
            accounts.process_spec(
                old(ledger)@,
                *ctx,
                escrow_bump,
                base_amount,
                quote_amount,
                start_date,
                expire_date,
            ),
        ),
{
    accounts.process(ledger, ctx, escrow_bump, base_amount, quote_amount, start_date, expire_date)
}

/// Cancels the order on the accounts given.
pub fn cancel_order(ledger: &mut Ledger, ctx: &Context, accounts: &CancelOrder, escrow_bump: u8) -> (r:
    Result<(), InstructionError>)
    ensures
        instruction_step(
            old(ledger)@,
            final(ledger)@,
            r,
            accounts.process_spec(old(ledger)@, *ctx, escrow_bump),
        ),
{
    accounts.process(ledger, ctx, escrow_bump)
}

/// Executes the order on the accounts given.
pub fn execute_order(ledger: &mut Ledger, ctx: &Context, accounts: &ExecuteOrder, escrow_bump: u8) -> (r:
    Result<(), InstructionError>)
    ensures
        instruction_step(
            old(ledger)@,
            final(ledger)@,
            r,
            accounts.process_spec(old(ledger)@, *ctx, escrow_bump),
        ),
{
    accounts.process(ledger, ctx, escrow_bump)
}

} // verus!
