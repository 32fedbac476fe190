//! Lifecycle of per-borrower credit lines: the record, the rules that decide
//! who may change it and how, a point-addressed store of records, and the
//! events that every change leaves behind.

pub mod contract;
pub mod error;
pub mod identity;
pub mod laws;
pub mod lifecycle;
pub mod store;
pub mod types;

pub use contract::{Credit, Ledger, LedgerView};
pub use error::CreditError;
pub use identity::Identity;
pub use store::CreditLineStore;
pub use types::{
    CreditDrawEvent, CreditLineData, CreditLineEvent, CreditRepayEvent, CreditStatus, Event,
    EventType,
};
