//! Persistent records kept by the program.

pub mod collection;
pub mod hire;
