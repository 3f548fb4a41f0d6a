//! Hash-time-locked token escrow: the contract's scripts, the reading of token
//! metadata, the planning of fee inputs and the decisions of the three flows.

pub mod contract;
pub mod error;
pub mod flow;
pub mod gas;
pub mod keys;
pub mod script;
pub mod slp;
