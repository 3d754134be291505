//! A time-locked gift escrow: gifts unlock at a ledger time, are claimed with an
//! oracle-signed proof, and settle through an oracle-priced, slippage-bounded path.

pub mod types;
pub mod events;
pub mod slippage;
pub mod oracle;
pub mod signature;
pub mod payload;
pub mod contract;
pub mod pricing;
pub mod lifecycle;
pub mod laws;
