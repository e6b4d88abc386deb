//! A small ledger of one fungible coin: a supply record that says who may
//! mint and how much has been issued, and holder accounts that say who may
//! spend and what they hold. Minting is for the supply record's authority
//! alone, and a transfer never takes more than the source holds.

pub mod error;
pub mod identity;
pub mod instructions;
pub mod laws;
pub mod ledger;
pub mod model;
pub mod state;

pub use error::ErrorCode;
pub use identity::Identity;
pub use instructions::{
    initialize_account, mint, new, transfer, Constructor, InitializeAccount, Mint, Transfer,
};
pub use ledger::Ledger;
pub use model::Operation;
pub use state::{CoinAccount, CoinSettings};
