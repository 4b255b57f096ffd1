pub mod accounts;
pub mod faucet;
pub mod laws;
pub mod ledger;
pub mod units;
