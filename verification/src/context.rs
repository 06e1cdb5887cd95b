//! What an instruction is handed besides its arguments: the configuration
//! of the deployment, one reading of the ledger's clock and rent, and the
//! accounts it works on.

use vstd::prelude::*;
use crate::pubkey::Pubkey;

verus! {

/// The deployment's configuration and the ledger's readings, taken once per
/// instruction.
#[derive(Clone, Copy, Debug)]
pub struct Context {
    /// The address under which this program is deployed. Escrow addresses
    /// are derived under it, and it owns the order records and the native
    /// escrows.
    pub program_id: Pubkey,
    /// The address of the fungible-token sub-system, which owns the token
    /// escrows.
    pub token_program: Pubkey,
    /// The ledger's current time.
    pub unix_timestamp: i64,
    /// The least balance that the ledger asks of an account of the size of
    /// an order record.
    pub order_rent: u64,
    /// The least balance that the ledger asks of a native escrow.
    pub native_escrow_rent: u64,
    /// The least balance that the ledger asks of a token account.
    pub token_escrow_rent: u64,
}

/// The accounts of the instruction that creates an order.
#[derive(Clone, Copy, Debug)]
pub struct CreateOrder {
    /// Where the new order record will stand; not in use yet.
    pub order: Pubkey,
    /// Who creates the order. The ledger has checked the funder's signature.
    pub funder: Pubkey,
    /// Who will be allowed to execute the order.
    pub recipient: Pubkey,
    /// Where the base amount comes from: the funder's wallet for the native
    /// asset, else a token account of the funder.
    pub funder_token_account: Pubkey,
    /// The escrow to be opened, derived from the funder and the order.
    pub escrow: Pubkey,
    /// Where the quote amount will go: the funder's wallet for the native
    /// asset, else a token account.
    pub quote_token_account: Pubkey,
    /// Mint of the base asset; the system program for the native asset.
    pub escrow_mint: Pubkey,
    /// Mint of the quote asset; the system program for the native asset.
    pub quote_mint: Pubkey,
}

/// The accounts of the instruction that cancels an order.
#[derive(Clone, Copy, Debug)]
pub struct CancelOrder {
    /// The order record.
    pub order: Pubkey,
    /// The order's funder. The ledger has checked the funder's signature.
    pub funder: Pubkey,
    /// Where the base amount returns to: the funder's wallet for the native
    /// asset, else a token account.
    pub funder_token_account: Pubkey,
    /// The order's escrow.
    pub escrow: Pubkey,
}

/// The accounts of the instruction that executes an order.
#[derive(Clone, Copy, Debug)]
pub struct ExecuteOrder {
    /// The order record.
    pub order: Pubkey,
    /// The order's funder.
    pub funder: Pubkey,
    /// The order's recipient. The ledger has checked the recipient's
    /// signature.
    pub recipient: Pubkey,
    /// Where the quote amount comes from: the recipient's wallet for the
    /// native asset, else a token account of the recipient.
    pub recipient_token_account: Pubkey,
    /// Where the base amount goes: the recipient's wallet for the native
    /// asset, else a token account.
    pub recipient_receive_token_account: Pubkey,
    /// The order's escrow.
    pub escrow: Pubkey,
    /// The account that the order names for the quote amount.
    pub quote_token_account: Pubkey,
}

} // verus!
