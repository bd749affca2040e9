//! Listing with packed arguments, and the withdrawal of escrowed funds.

pub mod initialize;
pub mod withdraw;
