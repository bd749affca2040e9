use crate::pubkey::Pubkey;
use vstd::prelude::*;

verus! {

/// Bytes of the header that precedes every stored record.
pub const DISCRIMINATOR_LEN: usize = 8;

/// Asset-container record: a plain data holder without transition logic.
#[derive(Clone, Copy, Debug, PartialEq, Eq)]
pub struct Collection {
    pub authority: Pubkey,
    pub mint: Pubkey,
    pub bump: u8,
}

impl Collection {
    /// Namespace tag under which collection records are addressed: the bytes
    /// of `collection`.
    pub const PREFIX: [u8; 10] = [99, 111, 108, 108, 101, 99, 116, 105, 111, 110];

    /// Bytes that one stored record occupies: the header, two identities
    /// and the bump.
    pub fn space() -> (n: usize)
        ensures
            n == 73,
            n == DISCRIMINATOR_LEN + 32 + 32 + 1,
    {
        DISCRIMINATOR_LEN + 32 + 32 + 1
    }
}

} // verus!
