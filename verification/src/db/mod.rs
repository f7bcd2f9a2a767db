//! Run registry and event ledger records.
pub mod ledger;
pub mod orphan;
pub mod registry;
