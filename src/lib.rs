//! A ledger of client accounts driven by a stream of transaction records.
pub mod model;
pub mod lookup;
pub mod ledger;
pub mod record;
pub mod laws;
