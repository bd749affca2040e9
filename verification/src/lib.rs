//! Custodial rental ("hire") escrow for uniquely identified assets.
//!
//! A lender lists an asset for a term, a borrower takes it against a fee, and
//! the lender reclaims it once the term is over. One record per asset and
//! lender tracks the rental; the asset itself stays locked under the record's
//! address all the while, first in the lender's custody account, then in the
//! rental custody account.
//!
//! - [`instructions::hire`] holds the state machine: list, activate, reclaim,
//!   close. [`processor::hire`] holds listing on packed terms and the
//!   withdrawal of escrowed funds.
//! - [`custody`] states what the escrow expects of the custody service, and
//!   the two sequences that bracket every move of the asset: lock and release.
//! - [`fees`] splits the fee between the creators of the asset and the lender.
//! - [`address`] derives the address of a record from the asset and the
//!   lender.
//! - [`lifecycle`] proves what holds of the transitions, alone and in
//!   sequence.
//!
//! The services that hold the asset and move the funds are external. A
//! transition decides on the accounts it is handed, and returns the requests
//! that its caller must send to them.

pub mod accounts;
pub mod address;
pub mod custody;
pub mod error;
pub mod fees;
pub mod instructions;
pub mod lifecycle;
pub mod processor;
pub mod pubkey;
pub mod state;
