//! Why a transition was refused.

use vstd::prelude::*;

verus! {

/// A refusal by the custody service, as the escrow expects the service to
/// decide it.
#[derive(Clone, Copy, Debug, PartialEq, Eq, Structural)]
pub enum CustodyError {
    /// The authority that must sign did not.
    MissingSignature,
    /// The signing authority does not own the custody account.
    OwnerMismatch,
    /// The acting party is not the delegate of the custody account, or the
    /// delegation does not cover the quantity.
    InvalidDelegate,
    /// The custody account is locked.
    AccountFrozen,
    /// The custody account is not locked.
    AccountNotFrozen,
    /// The custody account holds another asset.
    MintMismatch,
    /// The custody account holds less than the quantity to move.
    InsufficientFunds,
    /// Source and destination are the same custody account.
    SameAccount,
    /// The destination cannot hold the quantity.
    Overflow,
}

/// Every way in which a transition of the escrow fails. A failed transition
/// changes nothing.
#[derive(Clone, Copy, Debug, PartialEq, Eq, Structural)]
pub enum DexloanError {
    /// The expiry of a listing has already passed when it is created.
    InvalidExpiry,
    /// A listing without a fee names no borrower.
    BorrowerNotSpecified,
    /// The term has not elapsed, or the record is still hired.
    NotExpired,
    /// The record is not in the state that the transition starts from.
    InvalidState,
    /// No record is stored at the address.
    AccountNotInitialized,
    /// A record is already stored at the address.
    AccountAlreadyInitialized,
    /// The caller did not sign.
    MissingSignature,
    /// The caller is not the borrower that the listing is reserved for.
    InvalidBorrower,
    /// The caller is not the lender of the record.
    InvalidLender,
    /// The asset is not the one of the record, or is not unique.
    InvalidMint,
    /// The custody account offered for listing is not the lender's, or does
    /// not hold exactly one unit of the asset.
    InvalidTokenAccount,
    /// The record is not stored at the address derived for the asset and
    /// the lender.
    DerivedKeyInvalid,
    /// Creator fees exceed the fee of the rental.
    NumericalOverflow,
    /// The record has a borrower assigned, so its balance is not drawable.
    BorrowerAssigned,
    /// The custody service would refuse a step of the transition.
    Custody(CustodyError),
}

} // verus!
