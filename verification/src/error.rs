//! Failure kinds of the swap instructions.

use vstd::prelude::*;

verus! {

/// One kind per violated precondition of an instruction.
#[derive(Clone, Copy, Debug, PartialEq, Eq, Structural)]
pub enum ErrorCode {
    /// The order's quote asset is native and the quote account is not the funder.
    QuoteAccountWalletMismatch,
    /// The order's base asset is native and the funder's account is not the funder.
    FunderAccountWalletMismatch,
    /// The quote asset is native and the recipient's paying account is not the recipient.
    RecipientAccountWalletMismatch,
    /// The base asset is native and the recipient's receiving account is not the recipient.
    RecipientReceiveAccountWalletMismatch,
    /// The ledger time is past the order's expire date.
    OrderIsExpired,
    /// The ledger time is before the order's start date.
    OrderIsNotStarted,
    /// The expire date is not after the ledger time, or not after the start date.
    ExpireDateInThePast,
    /// The start date is before the ledger time.
    StartDateInThePast,
    /// The order is not in the `Created` state.
    InvalidOrderStatus,
}

/// The number that the first error kind is reported under.
pub const ERROR_CODE_OFFSET: u32 = 6000;

impl ErrorCode {
    /// Position of the kind in the declaration order, starting at zero.
    pub open spec fn index(self) -> nat {
        match self {
            ErrorCode::QuoteAccountWalletMismatch => 0,
            ErrorCode::FunderAccountWalletMismatch => 1,
            ErrorCode::RecipientAccountWalletMismatch => 2,
            ErrorCode::RecipientReceiveAccountWalletMismatch => 3,
            ErrorCode::OrderIsExpired => 4,
            ErrorCode::OrderIsNotStarted => 5,
            ErrorCode::ExpireDateInThePast => 6,
            ErrorCode::StartDateInThePast => 7,
            ErrorCode::InvalidOrderStatus => 8,
        }
    }

    /// What a client is told of this kind, in words.
    pub open spec fn spec_message(self) -> Seq<char> {
        match self {
            ErrorCode::QuoteAccountWalletMismatch => "Quote account mismatch funder wallet"@,
            ErrorCode::FunderAccountWalletMismatch => "Funder account mismatch wallet"@,
            ErrorCode::RecipientAccountWalletMismatch => "Recipient account mismatch wallet"@,
            ErrorCode::RecipientReceiveAccountWalletMismatch => "Recipient receive account mismatch wallet"@,
            ErrorCode::OrderIsExpired => "Order is expired"@,
            ErrorCode::OrderIsNotStarted => "Order is not started"@,
            ErrorCode::ExpireDateInThePast => "Expire date in the past"@,
            ErrorCode::StartDateInThePast => "Start date in the past"@,
            ErrorCode::InvalidOrderStatus => "Invalid order status"@,
        }
    }

    /// What a client is told of this kind, in words.
    pub fn message(&self) -> (m: &'static str)
        ensures
            m@ == self.spec_message(),
    {
        match self {
            ErrorCode::QuoteAccountWalletMismatch => "Quote account mismatch funder wallet",
            ErrorCode::FunderAccountWalletMismatch => "Funder account mismatch wallet",
            ErrorCode::RecipientAccountWalletMismatch => "Recipient account mismatch wallet",
            ErrorCode::RecipientReceiveAccountWalletMismatch => {
                "Recipient receive account mismatch wallet"
            },
            ErrorCode::OrderIsExpired => "Order is expired",
            ErrorCode::OrderIsNotStarted => "Order is not started",
            ErrorCode::ExpireDateInThePast => "Expire date in the past",
            ErrorCode::StartDateInThePast => "Start date in the past",
            ErrorCode::InvalidOrderStatus => "Invalid order status",
        }
    }

    /// The number a client sees for this kind.
    pub fn code(&self) -> (n: u32)
        ensures
            n == ERROR_CODE_OFFSET + self.index(),
    {
        match self {
            ErrorCode::QuoteAccountWalletMismatch => 6000,
            ErrorCode::FunderAccountWalletMismatch => 6001,
            ErrorCode::RecipientAccountWalletMismatch => 6002,
            ErrorCode::RecipientReceiveAccountWalletMismatch => 6003,
            ErrorCode::OrderIsExpired => 6004,
            ErrorCode::OrderIsNotStarted => 6005,
            ErrorCode::ExpireDateInThePast => 6006,
            ErrorCode::StartDateInThePast => 6007,
            ErrorCode::InvalidOrderStatus => 6008,
        }
    }
}

/// Why the ledger refused to move an asset or to open or close an account.
#[derive(Clone, Copy, Debug, PartialEq, Eq, Structural)]
pub enum LedgerError {
    /// No account stands under an address that has to be in use.
    AccountNotFound,
    /// An account is to be opened, or initialized, where one already stands.
    AccountAlreadyInUse,
    /// The paying account holds less than the amount.
    InsufficientFunds,
    /// The receiving account cannot hold the amount on top of its balance.
    BalanceOverflow,
    /// One account was named both as the source and as the destination of a
    /// direct balance adjustment.
    AccountBorrowFailed,
    /// The account does not hold what the operation works on.
    InvalidAccountData,
    /// The two token accounts hold different assets.
    MintMismatch,
    /// The authority named is not the token account's authority.
    OwnerMismatch,
    /// A token account that still holds tokens is to be closed.
    NonZeroBalance,
}

/// Why an instruction was refused. Whatever the reason, the ledger is left
/// as it was.
#[derive(Clone, Copy, Debug, PartialEq, Eq, Structural)]
pub enum InstructionError {
    /// The instruction's bytes do not begin with the tag of an instruction.
    UnknownInstruction,
    /// The instruction's bytes end too early, or hold a mark that is never
    /// written.
    MalformedInstruction,
    /// Fewer accounts were handed in than the instruction works on.
    NotEnoughAccounts,
    /// An account that has to sign the instruction has not signed it.
    MissingSignature,
    /// An account that the instruction changes was handed in read-only.
    NotWritable,
    /// The token sub-system or the system program handed in is another
    /// program.
    InvalidProgramId,
    /// The order account holds no order record.
    OrderNotFound,
    /// An account handed in is not the one that the order record names.
    AccountMismatch,
    /// The escrow handed in is not the address derived from the funder, the
    /// order and the bump.
    EscrowMismatch,
    /// A precondition of the instruction itself is violated.
    Program(ErrorCode),
    /// The ledger refused one of the instruction's steps.
    Ledger(LedgerError),
}

} // verus!
