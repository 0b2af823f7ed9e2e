//! Native-token in/out flow of an address on an EVM chain: paginated
//! transaction retrieval decisions, response handling, exact 256-bit
//! accumulation and display of token amounts.

pub mod address;
pub mod amount;
pub mod args;
pub mod chain;
pub mod decimal;
pub mod error;
pub mod flow;
pub mod pagination;
pub mod records;
pub mod request;
