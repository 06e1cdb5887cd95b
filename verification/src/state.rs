//! The order record and its state machine.

use vstd::prelude::*;
use crate::pubkey::Pubkey;
use crate::wire::{
    date_bytes, get_i64, get_key, get_u64, has_tag, i64_bytes, i64_of, lemma_number_bytes,
    put_bytes, put_date, put_i64, put_key, put_u64, spec_has_tag, u64_bytes, u64_of,
};

verus! {

/// Where an order stands. `Canceled` and `Completed` are terminal.
#[derive(Clone, Copy, Debug, PartialEq, Eq, Structural)]
pub enum OrderStatus {
    /// Open: the escrow holds the base amount.
    Created,
    /// The funder took the base amount back.
    Canceled,
    /// The recipient paid the quote amount and took the base amount.
    Completed,
}

impl OrderStatus {
    /// Whether no instruction can change the order any more.
    pub open spec fn spec_is_terminal(&self) -> bool {
        *self != OrderStatus::Created
    }

    /// Whether no instruction can change the order any more.
    #[verifier::when_used_as_spec(spec_is_terminal)]
    pub fn is_terminal(&self) -> (r: bool)
        ensures
            r == self.spec_is_terminal(),
    {
        match self {
            OrderStatus::Created => false,
            OrderStatus::Canceled => true,
            OrderStatus::Completed => true,
        }
    }

    /// The byte that stands for the status in a stored record.
    pub open spec fn spec_tag(&self) -> u8 {
        match self {
            OrderStatus::Created => 0,
            OrderStatus::Canceled => 1,
            OrderStatus::Completed => 2,
        }
    }

    /// The byte that stands for the status in a stored record.
    #[verifier::when_used_as_spec(spec_tag)]
    pub fn tag(&self) -> (t: u8)
        ensures
            t == self.spec_tag(),
    {
        match self {
            OrderStatus::Created => 0,
            OrderStatus::Canceled => 1,
            OrderStatus::Completed => 2,
        }
    }

    /// The status that a byte of a stored record stands for, if any.
    pub open spec fn spec_from_tag(tag: u8) -> Option<OrderStatus> {
        if tag == 0 {
            Some(OrderStatus::Created)
        } else if tag == 1 {
            Some(OrderStatus::Canceled)
        } else if tag == 2 {
            Some(OrderStatus::Completed)
        } else {
            None
        }
    }

    /// The status that a byte of a stored record stands for, if any.
    #[verifier::when_used_as_spec(spec_from_tag)]
    pub fn from_tag(tag: u8) -> (r: Option<OrderStatus>)
        ensures
            r == OrderStatus::spec_from_tag(tag),
    {
        if tag == 0 {
            Some(OrderStatus::Created)
        } else if tag == 1 {
            Some(OrderStatus::Canceled)
        } else if tag == 2 {
            Some(OrderStatus::Completed)
        } else {
            None
        }
    }

    /// The edges of the state machine: a created order is canceled or
    /// completed, and nothing else ever happens to a status.
    pub open spec fn can_become(self, next: OrderStatus) -> bool {
        self == OrderStatus::Created && next != OrderStatus::Created
    }
}

/// One swap agreement: the funder has locked `base_amount` in `escrow`, and
/// `recipient` may take it for `quote_amount` paid to `quote_token_account`.
#[derive(Clone, Copy, Debug, PartialEq, Eq)]
pub struct Order {
    /// Current status.
    pub status: OrderStatus,
    /// Amount that the funder gives.
    pub base_amount: u64,
    /// Amount that the recipient gives.
    pub quote_amount: u64,
    /// Mint of the base asset; the system program's address for the native asset.
    pub base_mint: Pubkey,
    /// Mint of the quote asset; the system program's address for the native asset.
    pub quote_mint: Pubkey,
    /// Who created the order and locked the base amount.
    pub funder: Pubkey,
    /// Who may execute the order.
    pub recipient: Pubkey,
    /// The custody account that holds the base amount while the order is open.
    pub escrow: Pubkey,
    /// The funder's account that receives the quote amount.
    pub quote_token_account: Pubkey,
    /// Time from which the order can be executed; `None` means at once.
    pub start_date: Option<i64>,
    /// Time after which the order cannot be executed.
    pub expire_date: i64,
}

/// The eight bytes that every stored order record begins with.
pub const ORDER_TAG: [u8; 8] = [134, 173, 223, 185, 77, 86, 28, 51];

/// Where the status stands in a stored record.
pub const STATUS_OFFSET: usize = 8;

/// Where the funder stands in a stored record.
pub const FUNDER_OFFSET: usize = 89;

impl Order {
    /// Bytes that the ledger reserves for an order record: a tag of eight
    /// bytes, the status, two amounts, six addresses, the optional start
    /// date and the expire date.
    pub const LEN: usize = 8 + 1 + 8 + 8 + 32 + 32 + 32 + 32 + 32 + 32 + 9 + 8;

    /// Whether the base asset is the ledger's native asset.
    pub open spec fn spec_is_base_native(&self) -> bool {
        self.base_mint.spec_is_system()
    }

    /// Whether the base asset is the ledger's native asset.
    #[verifier::when_used_as_spec(spec_is_base_native)]
    pub fn is_base_native(&self) -> (r: bool)
        ensures
            r == self.spec_is_base_native(),
    {
        self.base_mint.is_system()
    }

    /// Whether the quote asset is the ledger's native asset.
    pub open spec fn spec_is_quote_native(&self) -> bool {
        self.quote_mint.spec_is_system()
    }

    /// Whether the quote asset is the ledger's native asset.
    #[verifier::when_used_as_spec(spec_is_quote_native)]
    pub fn is_quote_native(&self) -> (r: bool)
        ensures
            r == self.spec_is_quote_native(),
    {
        self.quote_mint.is_system()
    }
}

impl Order {
    /// The fields of the record as they are stored, one after the other.
    pub open spec fn field_bytes(&self) -> Seq<u8> {
        seq![self.status.spec_tag()] + u64_bytes(self.base_amount) + u64_bytes(self.quote_amount)
            + self.base_mint@ + self.quote_mint@ + self.funder@ + self.recipient@ + self.escrow@
            + self.quote_token_account@ + date_bytes(self.start_date) + i64_bytes(
            self.expire_date,
        )
    }

    /// The stored record: the tag, the fields, and zero bytes up to `LEN`.
    pub open spec fn spec_pack(&self) -> Seq<u8> {
        let used = ORDER_TAG@ + self.field_bytes();
        used + Seq::new((Order::LEN - used.len()) as nat, |i: int| 0u8)
    }

    /// The record that stored bytes hold, read without a look at the first
    /// eight bytes; whatever follows the record is not looked at either.
    /// `None` where the bytes end too early, or where the status or the
    /// mark of the start date is not one that is ever written.
    pub open spec fn spec_unpack_unchecked(data: Seq<u8>) -> Option<Order> {
        if data.len() < 226 {
            None
        } else if OrderStatus::spec_from_tag(data[8]) is None {
            None
        } else if data[217] > 1 {
            None
        } else if data[217] == 1 && data.len() < 234 {
            None
        } else {
            Some(
                Order {
                    status: OrderStatus::spec_from_tag(data[8])->0,
                    base_amount: u64_of(data.subrange(9, 17)),
                    quote_amount: u64_of(data.subrange(17, 25)),
                    base_mint: key_of(data.subrange(25, 57)),
                    quote_mint: key_of(data.subrange(57, 89)),
                    funder: key_of(data.subrange(89, 121)),
                    recipient: key_of(data.subrange(121, 153)),
                    escrow: key_of(data.subrange(153, 185)),
                    quote_token_account: key_of(data.subrange(185, 217)),
                    start_date: if data[217] == 1 {
                        Some(i64_of(data.subrange(218, 226)))
                    } else {
                        None
                    },
                    expire_date: if data[217] == 1 {
                        i64_of(data.subrange(226, 234))
                    } else {
                        i64_of(data.subrange(218, 226))
                    },
                },
            )
        }
    }

    /// The record that stored bytes hold, if they begin with the tag of an
    /// order record.
    pub open spec fn spec_unpack(data: Seq<u8>) -> Option<Order> {
        if spec_has_tag(data, ORDER_TAG@) {
            Order::spec_unpack_unchecked(data)
        } else {
            None
        }
    }

    /// The record as the ledger stores it, in `LEN` bytes.
    pub fn pack(&self) -> (out: Vec<u8>)
        ensures
            out@ == self.spec_pack(),
            out@.len() == Order::LEN,
    {
        proof {
            lemma_number_bytes(self.base_amount, self.expire_date);
            lemma_number_bytes(self.quote_amount, self.expire_date);
            if self.start_date is Some {
                lemma_number_bytes(0, self.start_date->0);
            }
        }
        let mut out: Vec<u8> = Vec::new();
        put_bytes(&mut out, ORDER_TAG.as_slice());
        out.push(self.status.tag());
        put_u64(&mut out, self.base_amount);
        put_u64(&mut out, self.quote_amount);
        put_key(&mut out, &self.base_mint);
        put_key(&mut out, &self.quote_mint);
        put_key(&mut out, &self.funder);
        put_key(&mut out, &self.recipient);
        put_key(&mut out, &self.escrow);
        put_key(&mut out, &self.quote_token_account);
        put_date(&mut out, self.start_date);
        put_i64(&mut out, self.expire_date);
        let ghost used = out@;
        assert(used =~= ORDER_TAG@ + self.field_bytes());
        while out.len() < Order::LEN
            invariant
                out@.len() <= Order::LEN,
                used.len() <= out@.len(),
                out@ =~= used + Seq::new((out@.len() - used.len()) as nat, |i: int| 0u8),
            decreases Order::LEN - out@.len(),
        {
            out.push(0);
        }
        out
    }

    /// Reads a stored record without a look at its first eight bytes.
    pub fn unpack_unchecked(data: &[u8]) -> (r: Option<Order>)
        ensures
            r == Order::spec_unpack_unchecked(data@),
    {
        if data.len() < 226 {
            return None;
        }
        let status = match OrderStatus::from_tag(data[8]) {
            Some(status) => status,
            None => {
                return None;
            },
        };
        let mark = data[217];
        if mark > 1 {
            return None;
        }
        if mark == 1 && data.len() < 234 {
            return None;
        }
        let (start_date, expire_date) = if mark == 1 {
            (Some(get_i64(data, 218)), get_i64(data, 226))
        } else {
            (None, get_i64(data, 218))
        };
        let order = Order {
            status,
            base_amount: get_u64(data, 9),
            quote_amount: get_u64(data, 17),
            base_mint: get_key(data, 25),
            quote_mint: get_key(data, 57),
            funder: get_key(data, 89),
            recipient: get_key(data, 121),
            escrow: get_key(data, 153),
            quote_token_account: get_key(data, 185),
            start_date,
            expire_date,
        };
        proof {
            let model = Order::spec_unpack_unchecked(data@)->0;
            crate::pubkey::lemma_pubkey_ext(order.base_mint, model.base_mint);
            crate::pubkey::lemma_pubkey_ext(order.quote_mint, model.quote_mint);
            crate::pubkey::lemma_pubkey_ext(order.funder, model.funder);
            crate::pubkey::lemma_pubkey_ext(order.recipient, model.recipient);
            crate::pubkey::lemma_pubkey_ext(order.escrow, model.escrow);
            crate::pubkey::lemma_pubkey_ext(order.quote_token_account, model.quote_token_account);
        }
        Some(order)
    }

    /// Reads a stored record that begins with the tag of an order record.
    pub fn unpack(data: &[u8]) -> (r: Option<Order>)
        ensures
            r == Order::spec_unpack(data@),
    {
        if !has_tag(data, &ORDER_TAG) {
            return None;
        }
        Order::unpack_unchecked(data)
    }
}

/// The address with the given thirty-two bytes.
pub open spec fn key_of(bytes: Seq<u8>) -> Pubkey
    recommends
        bytes.len() == 32,
{
    choose|k: Pubkey| k@ == bytes
}

/// A stored record reads back as the record that was stored, with or
/// without the look at its tag. It takes `LEN` bytes; its status stands at
/// `STATUS_OFFSET` and its funder at `FUNDER_OFFSET`.
pub proof fn lemma_pack_unpack(order: Order)
    ensures
        order.spec_pack().len() == Order::LEN,
        Order::spec_unpack(order.spec_pack()) == Some(order),
        Order::spec_unpack_unchecked(order.spec_pack()) == Some(order),
        order.spec_pack()[STATUS_OFFSET as int] == order.status.spec_tag(),
        order.spec_pack().subrange(FUNDER_OFFSET as int, FUNDER_OFFSET + 32) == order.funder@,
{
    lemma_number_bytes(order.base_amount, order.expire_date);
    lemma_number_bytes(order.quote_amount, order.expire_date);
    if order.start_date is Some {
        lemma_number_bytes(0, order.start_date->0);
    }
    let data = order.spec_pack();
    assert(data.subrange(0, 8) =~= ORDER_TAG@);
    assert(data.subrange(9, 17) =~= u64_bytes(order.base_amount));
    assert(data.subrange(17, 25) =~= u64_bytes(order.quote_amount));
    assert(data.subrange(25, 57) =~= order.base_mint@);
    assert(data.subrange(57, 89) =~= order.quote_mint@);
    assert(data.subrange(89, 121) =~= order.funder@);
    assert(data.subrange(121, 153) =~= order.recipient@);
    assert(data.subrange(153, 185) =~= order.escrow@);
    assert(data.subrange(185, 217) =~= order.quote_token_account@);
    if order.start_date is Some {
        assert(data.subrange(218, 226) =~= i64_bytes(order.start_date->0));
        assert(data.subrange(226, 234) =~= i64_bytes(order.expire_date));
    } else {
        assert(data.subrange(218, 226) =~= i64_bytes(order.expire_date));
    }
    let read = Order::spec_unpack_unchecked(data)->0;
    crate::pubkey::lemma_pubkey_ext(read.base_mint, order.base_mint);
    crate::pubkey::lemma_pubkey_ext(read.quote_mint, order.quote_mint);
    crate::pubkey::lemma_pubkey_ext(read.funder, order.funder);
    crate::pubkey::lemma_pubkey_ext(read.recipient, order.recipient);
    crate::pubkey::lemma_pubkey_ext(read.escrow, order.escrow);
    crate::pubkey::lemma_pubkey_ext(read.quote_token_account, order.quote_token_account);
}

} // verus!
