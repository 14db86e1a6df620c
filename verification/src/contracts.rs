//! Sample contracts, written against the call convention by hand.

pub mod erc20;
pub mod test_log;
