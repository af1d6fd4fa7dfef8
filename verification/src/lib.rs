//! An off-chain oracle pipeline: requests logged by a ledger program are
//! resolved against independent price sources, reconciled under a quorum rule
//! and answered exactly once.
pub mod text;
pub mod types;
pub mod hexcode;
pub mod logs;
pub mod ledger;
pub mod store;
pub mod poller;
pub mod utils;
pub mod caller;
pub mod processor;
pub mod json;
pub mod sources;
pub mod consensus;
pub mod proofs;
pub mod content;
pub mod driver;
pub mod config;
pub mod pulse;
