//! Verified core of the ecosystem token program: the fee, yield-index and
//! investment arithmetic, the business-hours unstaking clock, and the state
//! transitions of every program instruction over plain account values.

pub mod errors;
pub mod math;
pub mod morpho;
pub mod state;
pub mod rwa;
pub mod yield_strategy;
pub mod aave;
pub mod instructions;
pub mod investment_instructions;
