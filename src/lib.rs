//! Resolution of a single-hop swap against a bin-based liquidity pool: which
//! bin arrays the program needs, the ordered account list with its flags, and
//! the instruction payload.

pub mod accounts;
pub mod address;
pub mod bin_array;
pub mod resolve;
