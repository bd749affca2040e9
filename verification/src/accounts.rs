//! The accounts that a transition is handed, as plain values.
//!
//! Nothing here is ambient: a transition reads and writes only the handles
//! it receives, and the caller stores what comes back.

use crate::pubkey::Pubkey;
use crate::state::hire::Hire;
use vstd::prelude::*;

verus! {

/// A party to a transition: its identity, and whether it signed the request.
#[derive(Clone, Copy, Debug, PartialEq, Eq)]
pub struct Wallet {
    pub key: Pubkey,
    pub is_signer: bool,
}

/// The asset: its identity and how many units of it exist.
#[derive(Clone, Copy, Debug, PartialEq, Eq)]
pub struct Mint {
    pub key: Pubkey,
    pub supply: u64,
}

/// The clock source's current reading, in seconds.
#[derive(Clone, Copy, Debug, PartialEq, Eq)]
pub struct Clock {
    pub unix_timestamp: i64,
}

/// The place where a hire record is stored. Without data no record exists
/// there: it was never created, or it was closed.
#[derive(Clone, Copy, Debug, PartialEq, Eq)]
pub struct HireAccount {
    pub key: Pubkey,
    pub data: Option<Hire>,
}

/// What a transition receives: the program it runs under and its accounts.
#[derive(Debug)]
pub struct Context<T> {
    pub program_id: Pubkey,
    pub accounts: T,
}

} // verus!
