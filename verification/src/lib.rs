//! Guest-side contract ABI, dispatch identifiers and the gas cost model of a
//! WASM-hosted smart-contract platform.

pub mod binding;
pub mod call_argument;
pub mod contracts;
pub mod cost_rules;
pub mod dispatch;
pub mod host;
pub mod inspect;
pub mod layout;
pub mod metering;
pub mod opcode;
pub mod pedersen;
pub mod types;
