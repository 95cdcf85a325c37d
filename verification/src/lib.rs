//! A registry of tree-planting certificates.
//!
//! Every certificate is a single-unit asset together with a record of where
//! and when the tree was planted. The registry counts the certificates it has
//! issued and numbers them in order.
//!
//! - [`pubkey`], [`state`] and [`error`] hold the plain data: keys, records,
//!   notifications, requests to the ledger, and the reasons for a refusal.
//! - [`address`] derives the addresses at which records live.
//! - [`instructions`] holds the three operations, each working on the records
//!   it is handed and answering with what the ledger is to do.
//! - [`model`] says what a ledger holds and what each operation makes of it;
//!   [`ledger`] is such a ledger, held in memory, and runs the operations
//!   against it.
//! - [`laws`] proves what holds of every ledger whatever is asked of it.

pub mod address;
pub mod error;
pub mod instructions;
pub mod laws;
pub mod ledger;
pub mod model;
pub mod pubkey;
pub mod state;

pub use error::{Error, ErrorCode, LedgerError};
pub use instructions::{initialize, mint_nft, transfer_nft, Initialize, MintNft, TransferNft};
pub use ledger::Ledger;
pub use model::{Certificate, LedgerState};
pub use pubkey::Pubkey;
pub use state::{MintTo, NftMetadata, NftMinted, NftTransferred, Transfer, TreeGuardian};
