//! A client core that mirrors the campaign records of a crowdfunding ledger
//! contract into local state, and prepares new records for submission.

pub mod address;
pub mod amount;
pub mod campaign;
pub mod store;
pub mod submit;
pub mod sync;
