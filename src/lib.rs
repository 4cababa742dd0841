//! A router that turns one native-currency payment into a batch of swaps
//! against constant-product pools, followed by a protocol fee.
//!
//! The library decides everything a request does: it validates the request,
//! splits the flat list of pool accounts into groups, and returns the exact,
//! ordered list of external calls to perform. The program around it performs
//! those calls in order and aborts on the first failure.
pub mod accounts;
pub mod amounts;
pub mod error;
pub mod instructions;
pub mod totals;

pub use accounts::{AccountKey, MultiBuy, PoolGroup};
pub use amounts::{
    fee_amount, funding_amount, validate_token_length, FEE_RATE_PER_MILLE, MAX_TOKEN_LENGTH,
    MIN_TOKEN_LENGTH,
};
pub use error::CustomError;
pub use instructions::{multi_buy, partition_pool_groups, Action, SwapCall};

