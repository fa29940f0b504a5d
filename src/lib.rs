//! A pooled-asset ledger: a fixed-ratio basket of fungible assets held
//! behind a single share token, with verified share issuance and redemption.

pub mod codec;
pub mod economics;
pub mod error;
pub mod instruction;
pub mod ledger;
pub mod mint;
pub mod pool;
