pub mod contract;
pub mod error;
pub mod laws;
pub mod ledger;
pub mod metadata;
pub mod pending;
