//! The transitions of the escrow, as callers request them.

pub mod hire;
