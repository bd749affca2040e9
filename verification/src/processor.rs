//! Handlers that take their arguments as one value.

pub mod hire;
