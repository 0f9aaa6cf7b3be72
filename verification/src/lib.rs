pub mod authority;
pub mod errors;
pub mod escrow;
pub mod instructions;
pub mod key;
pub mod laws;
pub mod ledger;

pub use authority::AuthorityDelegate;
pub use errors::{Errors, FulfillError};
pub use escrow::{Escrow, FulfillStatus, FulfillStep};
pub use instructions::{
    create_escrow, create_token_account, fullfill, settle, CreateEscrow, CreateTokenAccount,
    ExecuteTransferInstruction, NoAccounts,
};
pub use key::{id, Key, ID};
pub use ledger::{AccountRef, LedgerInstruction, TXInstruction, TransferInvoker};
