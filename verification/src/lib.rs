//! A custodial wallet with an owner, a bounded guardian list and a relay that
//! lets the wallet's derived address co-sign operations on other programs.
//!
//! Every handler is a transition from the state of one wallet account, the
//! request and the ledger time to the next state of that account or an error.

pub mod constants;
pub mod errors;
pub mod instructions;
pub mod runtime;
pub mod structs;

pub use crate::errors::WalletError;
pub use crate::instructions::guardians_set::{
    guardians_set, guardians_set_at, GuardiansSet, GuardiansSetArgs,
};
pub use crate::instructions::transaction_execute::{
    transaction_execute, TransactionExecute, TransactionExecuteArgs,
};
pub use crate::instructions::wallet_create::{
    wallet_create, wallet_create_at, WalletCreate, WalletCreateArgs,
};
pub use crate::structs::accounts::{Wallet, WalletAccount};
pub use crate::structs::models::{AccountMeta, Instruction, Pubkey};
