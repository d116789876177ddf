//! Share accounting for a pool of depositors who jointly own one margin
//! trading account: valuation of the account under open-order uncertainty,
//! receipt-token mint and burn amounts, and the deposit fee split.

pub mod error;
pub mod fees;
pub mod fixed_point;
pub mod operations;
pub mod pool;
pub mod shares;
pub mod valuation;
