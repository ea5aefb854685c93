//! A multi-token ledger: ownership, per-id balances and delegated spending
//! rights for a collection of token ids, with every operation proved against
//! a mathematical model of the ledger state.

mod account;
mod data;
mod errors;
mod id;
pub mod laws;
mod mapping;

pub use account::AccountId;
pub use data::{
    approval_value, events_view, saturating_sub, AllowanceValue, ApprovalKey, Balance, EventView,
    LedgerView, PSP37Data, PSP37Event,
};
pub use errors::PSP37Error;
pub use id::{Id, IdView};
pub use mapping::{Mapping, StorageKey};
