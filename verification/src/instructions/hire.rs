//! The hire state machine: list, activate, reclaim, close.
//!
//! Every transition checks all it relies on against the accounts it is
//! handed, then either applies its whole write set or changes nothing. On
//! success it returns the requests to send to the custody and payment
//! services, in order; the accounts it hands back show what the custody
//! service will have done once it has honoured them.

use crate::accounts::{Clock, Context, HireAccount, Mint, Wallet};
use crate::address::{address_view, bump_of, derives, derives_key, find_hire_address, hire_address};
use crate::custody::{
    lock, lock_instructions, lock_refusal, locked, release, release_instructions, release_refusal,
    released, Instruction, TokenAccount,
};
use crate::error::{CustodyError, DexloanError};
use crate::fees::{fee_payments, fees_total, pay_creator_fees, registry_entries, Royalty};
use crate::pubkey::Pubkey;
use crate::state::hire::{Hire, HireState};
use vstd::prelude::*;

verus! {

/// A refusal of the custody service as the failure of a transition.
pub open spec fn custody_failure(refusal: Option<CustodyError>) -> Option<DexloanError> {
    match refusal {
        Some(e) => Some(DexloanError::Custody(e)),
        None => None,
    }
}

/// The accounts of a listing.
#[derive(Clone, Copy, Debug, PartialEq, Eq)]
pub struct InitHire {
    /// The owner who lists the asset.
    pub lender: Wallet,
    /// The lender's custody account of the asset.
    pub deposit_token_account: TokenAccount,
    /// Where the record will be stored.
    pub hire_account: HireAccount,
    /// The asset.
    pub mint: Mint,
    /// The edition of the asset, under which custody accounts are locked.
    pub edition: Pubkey,
    pub clock: Clock,
}

/// Why a listing is refused, if it is. The checks stand in the order in
/// which they are made; the first that fails decides. On accounts that are
/// the lender's own (signed for, no record yet at the derived address, a
/// unique asset, the lender's custody account of it) the terms are tested
/// first: the expiry, then the borrower of a listing without a fee. Only then
/// comes what the custody account holds.
pub open spec fn list_refusal(
    a: InitHire,
    derived: Option<(Seq<u8>, u8)>,
    amount: u64,
    expiry: i64,
    borrower: Option<Pubkey>,
) -> Option<DexloanError> {
    if !a.lender.is_signer {
        Some(DexloanError::MissingSignature)
    } else if a.hire_account.data is Some {
        Some(DexloanError::AccountAlreadyInitialized)
    } else if !derives_key(derived, a.hire_account.key) {
        Some(DexloanError::DerivedKeyInvalid)
    } else if a.mint.supply != 1 {
        Some(DexloanError::InvalidMint)
    } else if a.deposit_token_account.mint != a.mint.key || a.deposit_token_account.owner
        != a.lender.key {
        Some(DexloanError::InvalidTokenAccount)
    } else if a.clock.unix_timestamp > expiry {
        Some(DexloanError::InvalidExpiry)
    } else if amount == 0 && borrower is None {
        Some(DexloanError::BorrowerNotSpecified)
    } else if a.deposit_token_account.amount != 1 {
        Some(DexloanError::InvalidTokenAccount)
    } else {
        custody_failure(
            lock_refusal(a.deposit_token_account, a.lender, a.hire_account.key, a.mint.key),
        )
    }
}

/// The record that a listing creates.
pub open spec fn listed_record(
    a: InitHire,
    bump: u8,
    amount: u64,
    expiry: i64,
    borrower: Option<Pubkey>,
) -> Hire {
    Hire {
        state: HireState::Listed,
        amount,
        borrower,
        lender: a.lender.key,
        expiry,
        escrow_balance: 0,
        mint: a.mint.key,
        bump,
    }
}

/// The accounts after a listing: the record exists, and the lender's custody
/// account is locked under the record's address.
pub open spec fn listed(
    a: InitHire,
    bump: u8,
    amount: u64,
    expiry: i64,
    borrower: Option<Pubkey>,
) -> InitHire {
    InitHire {
        deposit_token_account: locked(a.deposit_token_account, a.hire_account.key),
        hire_account: HireAccount {
            key: a.hire_account.key,
            data: Some(listed_record(a, bump, amount, expiry, borrower)),
        },
        ..a
    }
}

/// What a listing does: `after` and `r` for the accounts `before`, where
/// `derived` is the address derived for the asset and the lender.
pub open spec fn list_outcome(
    before: InitHire,
    derived: Option<(Seq<u8>, u8)>,
    amount: u64,
    expiry: i64,
    borrower: Option<Pubkey>,
    after: InitHire,
    r: Result<Vec<Instruction>, DexloanError>,
) -> bool {
    match r {
        Ok(instructions) => {
            &&& list_refusal(before, derived, amount, expiry, borrower) is None
            &&& derived matches Some((_, bump))
            &&& after == listed(before, bump, amount, expiry, borrower)
            &&& instructions@ == lock_instructions(
                before.deposit_token_account,
                before.lender,
                before.hire_account.key,
                before.edition,
                before.mint.key,
                listed_record(before, bump, amount, expiry, borrower).signer_seeds(),
            )
        },
        Err(e) => {
            &&& list_refusal(before, derived, amount, expiry, borrower) == Some(e)
            &&& after == before
        },
    }
}

/// Lists the asset for rental at the fee `amount` until `expiry`, for
/// `borrower` alone if one is named. `derived` is the address derived for the
/// asset and the lender, with its bump seed.
///
/// Creates the record in the state `Listed` and locks the lender's custody
/// account under the record's address.
pub fn list(
    accounts: &mut InitHire,
    derived: Option<(Pubkey, u8)>,
    amount: u64,
    expiry: i64,
    borrower: Option<Pubkey>,
) -> (r: Result<Vec<Instruction>, DexloanError>)
    ensures
        list_outcome(
            *old(accounts),
            address_view(derived),
            amount,
            expiry,
            borrower,
            *final(accounts),
            r,
        ),
{
    if !accounts.lender.is_signer {
        return Err(DexloanError::MissingSignature);
    }
    if accounts.hire_account.data.is_some() {
        return Err(DexloanError::AccountAlreadyInitialized);
    }
    let bump = match bump_of(&derived, &accounts.hire_account.key) {
        Some(bump) => bump,
        None => {
            return Err(DexloanError::DerivedKeyInvalid);
        },
    };
    if accounts.mint.supply != 1 {
        return Err(DexloanError::InvalidMint);
    }
    if accounts.deposit_token_account.mint != accounts.mint.key
        || accounts.deposit_token_account.owner != accounts.lender.key {
        return Err(DexloanError::InvalidTokenAccount);
    }
    if accounts.clock.unix_timestamp > expiry {
        return Err(DexloanError::InvalidExpiry);
    }
    if amount == 0 && borrower.is_none() {
        return Err(DexloanError::BorrowerNotSpecified);
    }
    if accounts.deposit_token_account.amount != 1 {
        return Err(DexloanError::InvalidTokenAccount);
    }
    let record = Hire {
        state: HireState::Listed,
        amount,
        borrower,
        lender: accounts.lender.key,
        expiry,
        escrow_balance: 0,
        mint: accounts.mint.key,
        bump,
    };
    let mut deposit = accounts.deposit_token_account;
    let mut log: Vec<Instruction> = Vec::new();
    match lock(
        &mut deposit,
        &accounts.lender,
        &accounts.hire_account.key,
        &accounts.edition,
        &accounts.mint.key,
        &record.signer_seeds(),
        &mut log,
    ) {
        Ok(()) => {},
        Err(e) => {
            return Err(DexloanError::Custody(e));
        },
    }
    accounts.deposit_token_account = deposit;
    accounts.hire_account.data = Some(record);
    Ok(log)
}

/// Lists the asset of `ctx` for rental: derives the record's address under
/// the program of `ctx` and lists at it.
pub fn init(ctx: &mut Context<InitHire>, amount: u64, expiry: i64, borrower: Option<Pubkey>) -> (r:
    Result<Vec<Instruction>, DexloanError>)
    ensures
        final(ctx).program_id == old(ctx).program_id,
        list_outcome(
            old(ctx).accounts,
            hire_address(
                old(ctx).program_id,
                old(ctx).accounts.mint.key,
                old(ctx).accounts.lender.key,
            ),
            amount,
            expiry,
            borrower,
            final(ctx).accounts,
            r,
        ),
{
    let derived = find_hire_address(
        &ctx.program_id,
        &ctx.accounts.mint.key,
        &ctx.accounts.lender.key,
    );
    list(&mut ctx.accounts, derived, amount, expiry, borrower)
}

/// The accounts of an activation.
#[derive(Debug, PartialEq, Eq)]
pub struct TakeHire {
    /// The owner who listed the asset.
    pub lender: Wallet,
    /// The caller, who takes the asset and pays the fee.
    pub borrower: Wallet,
    /// The lender's custody account of the asset.
    pub deposit_token_account: TokenAccount,
    /// The rental custody account, which the caller owns and the asset
    /// moves to.
    pub hire_token_account: TokenAccount,
    /// Where the record is stored.
    pub hire_account: HireAccount,
    /// The asset.
    pub mint: Mint,
    /// The edition of the asset, under which custody accounts are locked.
    pub edition: Pubkey,
    /// What the royalty registry holds for the asset; nothing where the
    /// lookup failed.
    pub metadata: Option<Vec<Royalty>>,
}

/// Why an activation is refused, if it is. The checks stand in the order in
/// which they are made; the first that fails decides.
pub open spec fn activate_refusal(a: TakeHire, derived: Option<(Seq<u8>, u8)>) -> Option<
    DexloanError,
> {
    match a.hire_account.data {
        None => Some(DexloanError::AccountNotInitialized),
        Some(record) => {
            if record.state != HireState::Listed {
                Some(DexloanError::InvalidState)
            } else if !a.borrower.is_signer {
                Some(DexloanError::MissingSignature)
            } else if record.borrower is Some && record.borrower != Some(a.borrower.key) {
                Some(DexloanError::InvalidBorrower)
            } else if record.lender != a.lender.key {
                Some(DexloanError::InvalidLender)
            } else if record.mint != a.mint.key || a.mint.supply != 1 {
                Some(DexloanError::InvalidMint)
            } else if !derives(derived, a.hire_account.key, record.bump) {
                Some(DexloanError::DerivedKeyInvalid)
            } else if fees_total(record.amount, registry_entries(a.metadata)) > record.amount {
                Some(DexloanError::NumericalOverflow)
            } else if release_refusal(
                a.deposit_token_account,
                a.hire_token_account,
                a.hire_account.key,
                a.mint.key,
            ) is Some {
                custody_failure(
                    release_refusal(
                        a.deposit_token_account,
                        a.hire_token_account,
                        a.hire_account.key,
                        a.mint.key,
                    ),
                )
            } else {
                custody_failure(
                    lock_refusal(
                        a.hire_token_account.credited(1),
                        a.borrower,
                        a.hire_account.key,
                        a.mint.key,
                    ),
                )
            }
        },
    }
}

/// The record once `borrower` has taken the asset.
pub open spec fn hired_record(record: Hire, borrower: Pubkey) -> Hire {
    Hire { state: HireState::Hired, borrower: Some(borrower), ..record }
}

/// The accounts after an activation of `record`: the asset has left the
/// lender's custody account, which is unlocked, and is locked in the rental
/// custody account under the record's address; the record is hired.
pub open spec fn activated(a: TakeHire, record: Hire) -> TakeHire {
    TakeHire {
        deposit_token_account: released(a.deposit_token_account),
        hire_token_account: locked(a.hire_token_account.credited(1), a.hire_account.key),
        hire_account: HireAccount {
            key: a.hire_account.key,
            data: Some(hired_record(record, a.borrower.key)),
        },
        ..a
    }
}

/// The requests of an activation of `record`, in order: the fee, split
/// between the creators and the lender; the unlocking of the lender's custody
/// account and the move of the asset; the locking of the rental custody
/// account.
pub open spec fn activate_instructions(a: TakeHire, record: Hire) -> Seq<Instruction> {
    fee_payments(a.borrower.key, a.lender.key, record.amount, registry_entries(a.metadata))
        + release_instructions(
        a.deposit_token_account,
        a.hire_token_account,
        a.hire_account.key,
        a.edition,
        a.mint.key,
        record.signer_seeds(),
    ) + lock_instructions(
        a.hire_token_account.credited(1),
        a.borrower,
        a.hire_account.key,
        a.edition,
        a.mint.key,
        record.signer_seeds(),
    )
}

/// What an activation does: `after` and `r` for the accounts `before`, where
/// `derived` is the address derived for the asset and the lender.
pub open spec fn activate_outcome(
    before: TakeHire,
    derived: Option<(Seq<u8>, u8)>,
    after: TakeHire,
    r: Result<Vec<Instruction>, DexloanError>,
) -> bool {
    match r {
        Ok(instructions) => {
            &&& activate_refusal(before, derived) is None
            &&& before.hire_account.data matches Some(record)
            &&& after == activated(before, record)
            &&& instructions@ == activate_instructions(before, record)
        },
        Err(e) => {
            &&& activate_refusal(before, derived) == Some(e)
            &&& after == before
        },
    }
}

/// Activates the rental for the caller. `derived` is the address derived for
/// the asset and the lender, with its bump seed.
///
/// Splits the fee between the creators of the asset and the lender, moves
/// the asset from the lender's custody account to the rental custody account,
/// locks that account under the record's address, and marks the record
/// `Hired` with the caller as borrower.
pub fn activate(accounts: &mut TakeHire, derived: Option<(Pubkey, u8)>) -> (r: Result<
    Vec<Instruction>,
    DexloanError,
>)
    ensures
        activate_outcome(*old(accounts), address_view(derived), *final(accounts), r),
{
    let record = match accounts.hire_account.data {
        Some(record) => record,
        None => {
            return Err(DexloanError::AccountNotInitialized);
        },
    };
    match record.state {
        HireState::Listed => {},
        HireState::Hired => {
            return Err(DexloanError::InvalidState);
        },
    }
    if !accounts.borrower.is_signer {
        return Err(DexloanError::MissingSignature);
    }
    match record.borrower {
        Some(reserved) => {
            if reserved != accounts.borrower.key {
                return Err(DexloanError::InvalidBorrower);
            }
        },
        None => {},
    }
    if record.lender != accounts.lender.key {
        return Err(DexloanError::InvalidLender);
    }
    if record.mint != accounts.mint.key || accounts.mint.supply != 1 {
        return Err(DexloanError::InvalidMint);
    }
    match bump_of(&derived, &accounts.hire_account.key) {
        Some(bump) => {
            if bump != record.bump {
                return Err(DexloanError::DerivedKeyInvalid);
            }
        },
        None => {
            return Err(DexloanError::DerivedKeyInvalid);
        },
    }
    let paid = match &accounts.metadata {
        Some(entries) => pay_creator_fees(&accounts.borrower.key, record.amount, entries),
        None => Ok((Vec::new(), record.amount)),
    };
    let (mut log, remaining) = match paid {
        Ok(paid) => paid,
        Err(e) => {
            return Err(e);
        },
    };
    log.push(
        Instruction::Pay {
            from: accounts.borrower.key,
            to: accounts.lender.key,
            lamports: remaining,
        },
    );
    assert(log@ =~= fee_payments(
        accounts.borrower.key,
        accounts.lender.key,
        record.amount,
        registry_entries(accounts.metadata),
    ));
    let seeds = record.signer_seeds();
    let mut deposit = accounts.deposit_token_account;
    let mut rental = accounts.hire_token_account;
    match release(
        &mut deposit,
        &mut rental,
        &accounts.hire_account.key,
        &accounts.edition,
        &accounts.mint.key,
        &seeds,
        &mut log,
    ) {
        Ok(()) => {},
        Err(e) => {
            return Err(DexloanError::Custody(e));
        },
    }
    match lock(
        &mut rental,
        &accounts.borrower,
        &accounts.hire_account.key,
        &accounts.edition,
        &accounts.mint.key,
        &seeds,
        &mut log,
    ) {
        Ok(()) => {},
        Err(e) => {
            return Err(DexloanError::Custody(e));
        },
    }
    accounts.deposit_token_account = deposit;
    accounts.hire_token_account = rental;
    accounts.hire_account.data = Some(
        Hire { state: HireState::Hired, borrower: Some(accounts.borrower.key), ..record },
    );
    Ok(log)
}

/// Activates the rental of `ctx` for the caller: derives the record's
/// address under the program of `ctx` and activates at it.
pub fn take(ctx: &mut Context<TakeHire>) -> (r: Result<Vec<Instruction>, DexloanError>)
    ensures
        final(ctx).program_id == old(ctx).program_id,
        activate_outcome(
            old(ctx).accounts,
            hire_address(
                old(ctx).program_id,
                old(ctx).accounts.mint.key,
                old(ctx).accounts.lender.key,
            ),
            final(ctx).accounts,
            r,
        ),
{
    let derived = find_hire_address(
        &ctx.program_id,
        &ctx.accounts.mint.key,
        &ctx.accounts.lender.key,
    );
    activate(&mut ctx.accounts, derived)
}


/// The accounts of a reclamation.
#[derive(Clone, Copy, Debug, PartialEq, Eq)]
pub struct RevokeHire {
    /// The caller, who listed the asset.
    pub lender: Wallet,
    /// The lender's custody account, which the asset returns to.
    pub deposit_token_account: TokenAccount,
    /// The rental custody account, which holds the asset.
    pub hire_token_account: TokenAccount,
    /// Where the record is stored.
    pub hire_account: HireAccount,
    /// The asset.
    pub mint: Mint,
    /// The edition of the asset, under which custody accounts are locked.
    pub edition: Pubkey,
    pub clock: Clock,
}

/// Why a reclamation is refused, if it is. The checks stand in the order in
/// which they are made; the first that fails decides. Whatever else holds of
/// a record, before its expiry the refusal is `NotExpired`.
pub open spec fn reclaim_refusal(a: RevokeHire, derived: Option<(Seq<u8>, u8)>) -> Option<
    DexloanError,
> {
    match a.hire_account.data {
        None => Some(DexloanError::AccountNotInitialized),
        Some(record) => {
            if record.expiry > a.clock.unix_timestamp {
                Some(DexloanError::NotExpired)
            } else if record.state != HireState::Hired {
                Some(DexloanError::InvalidState)
            } else if !a.lender.is_signer {
                Some(DexloanError::MissingSignature)
            } else if record.lender != a.lender.key {
                Some(DexloanError::InvalidLender)
            } else if record.mint != a.mint.key || a.mint.supply != 1 {
                Some(DexloanError::InvalidMint)
            } else if !derives(derived, a.hire_account.key, record.bump) {
                Some(DexloanError::DerivedKeyInvalid)
            } else if release_refusal(
                a.hire_token_account,
                a.deposit_token_account,
                a.hire_account.key,
                a.mint.key,
            ) is Some {
                custody_failure(
                    release_refusal(
                        a.hire_token_account,
                        a.deposit_token_account,
                        a.hire_account.key,
                        a.mint.key,
                    ),
                )
            } else {
                custody_failure(a.deposit_token_account.credited(1).delegation_refusal(a.lender))
            }
        },
    }
}

/// The accounts after a reclamation: the asset is back in the lender's
/// custody account, unlocked and under no delegation; the rental custody
/// account is unlocked; the record is as it was.
pub open spec fn reclaimed(a: RevokeHire) -> RevokeHire {
    RevokeHire {
        deposit_token_account: a.deposit_token_account.credited(1).revoked(),
        hire_token_account: released(a.hire_token_account),
        ..a
    }
}

/// The requests of a reclamation of `record`, in order: the unlocking of the
/// rental custody account and the move of the asset; the end of any
/// delegation over the lender's custody account.
pub open spec fn reclaim_instructions(a: RevokeHire, record: Hire) -> Seq<Instruction> {
    release_instructions(
        a.hire_token_account,
        a.deposit_token_account,
        a.hire_account.key,
        a.edition,
        a.mint.key,
        record.signer_seeds(),
    ).push(Instruction::Revoke { source: a.deposit_token_account.key, authority: a.lender.key })
}

/// What a reclamation does: `after` and `r` for the accounts `before`, where
/// `derived` is the address derived for the asset and the lender.
pub open spec fn reclaim_outcome(
    before: RevokeHire,
    derived: Option<(Seq<u8>, u8)>,
    after: RevokeHire,
    r: Result<Vec<Instruction>, DexloanError>,
) -> bool {
    match r {
        Ok(instructions) => {
            &&& reclaim_refusal(before, derived) is None
            &&& before.hire_account.data matches Some(record)
            &&& after == reclaimed(before)
            &&& instructions@ == reclaim_instructions(before, record)
        },
        Err(e) => {
            &&& reclaim_refusal(before, derived) == Some(e)
            &&& after == before
        },
    }
}

/// Returns the asset to the lender once the term is over. `derived` is the
/// address derived for the asset and the lender, with its bump seed.
///
/// Unlocks the rental custody account, moves the asset to the lender's
/// custody account and ends the delegation over that account. The record
/// stays as it is: closing it is a step of its own.
pub fn reclaim(accounts: &mut RevokeHire, derived: Option<(Pubkey, u8)>) -> (r: Result<
    Vec<Instruction>,
    DexloanError,
>)
    ensures
        reclaim_outcome(*old(accounts), address_view(derived), *final(accounts), r),
{
    let record = match accounts.hire_account.data {
        Some(record) => record,
        None => {
            return Err(DexloanError::AccountNotInitialized);
        },
    };
    if record.expiry > accounts.clock.unix_timestamp {
        return Err(DexloanError::NotExpired);
    }
    match record.state {
        HireState::Hired => {},
        HireState::Listed => {
            return Err(DexloanError::InvalidState);
        },
    }
    if !accounts.lender.is_signer {
        return Err(DexloanError::MissingSignature);
    }
    if record.lender != accounts.lender.key {
        return Err(DexloanError::InvalidLender);
    }
    if record.mint != accounts.mint.key || accounts.mint.supply != 1 {
        return Err(DexloanError::InvalidMint);
    }
    match bump_of(&derived, &accounts.hire_account.key) {
        Some(bump) => {
            if bump != record.bump {
                return Err(DexloanError::DerivedKeyInvalid);
            }
        },
        None => {
            return Err(DexloanError::DerivedKeyInvalid);
        },
    }
    let seeds = record.signer_seeds();
    let mut deposit = accounts.deposit_token_account;
    let mut rental = accounts.hire_token_account;
    let mut log: Vec<Instruction> = Vec::new();
    match release(
        &mut rental,
        &mut deposit,
        &accounts.hire_account.key,
        &accounts.edition,
        &accounts.mint.key,
        &seeds,
        &mut log,
    ) {
        Ok(()) => {},
        Err(e) => {
            return Err(DexloanError::Custody(e));
        },
    }
    match deposit.revoke(&accounts.lender) {
        Ok(revoked) => {
            log.push(revoked);
        },
        Err(e) => {
            return Err(DexloanError::Custody(e));
        },
    }
    assert(log@ =~= reclaim_instructions(*accounts, record));
    accounts.deposit_token_account = deposit;
    accounts.hire_token_account = rental;
    Ok(log)
}

/// Returns the asset of `ctx` to the lender: derives the record's address
/// under the program of `ctx` and reclaims at it.
pub fn revoke(ctx: &mut Context<RevokeHire>) -> (r: Result<Vec<Instruction>, DexloanError>)
    ensures
        final(ctx).program_id == old(ctx).program_id,
        reclaim_outcome(
            old(ctx).accounts,
            hire_address(
                old(ctx).program_id,
                old(ctx).accounts.mint.key,
                old(ctx).accounts.lender.key,
            ),
            final(ctx).accounts,
            r,
        ),
{
    let derived = find_hire_address(
        &ctx.program_id,
        &ctx.accounts.mint.key,
        &ctx.accounts.lender.key,
    );
    reclaim(&mut ctx.accounts, derived)
}

/// The accounts of a closure.
#[derive(Clone, Copy, Debug, PartialEq, Eq)]
pub struct CloseHire {
    /// The caller, who listed the asset.
    pub lender: Wallet,
    /// Where the record is stored.
    pub hire_account: HireAccount,
    /// The asset.
    pub mint: Mint,
}

/// Why a closure is refused, if it is. The checks stand in the order in
/// which they are made; the first that fails decides. A record that is still
/// hired is refused as `NotExpired`, whatever the time.
pub open spec fn close_refusal(a: CloseHire, derived: Option<(Seq<u8>, u8)>) -> Option<
    DexloanError,
> {
    match a.hire_account.data {
        None => Some(DexloanError::AccountNotInitialized),
        Some(record) => {
            if record.state == HireState::Hired {
                Some(DexloanError::NotExpired)
            } else if !a.lender.is_signer {
                Some(DexloanError::MissingSignature)
            } else if record.lender != a.lender.key {
                Some(DexloanError::InvalidLender)
            } else if record.mint != a.mint.key {
                Some(DexloanError::InvalidMint)
            } else if !derives(derived, a.hire_account.key, record.bump) {
                Some(DexloanError::DerivedKeyInvalid)
            } else {
                None
            }
        },
    }
}

/// The accounts after a closure: no record is stored any more.
pub open spec fn closed(a: CloseHire) -> CloseHire {
    CloseHire { hire_account: HireAccount { key: a.hire_account.key, data: None }, ..a }
}

/// What a closure does: `after` and `r` for the accounts `before`, where
/// `derived` is the address derived for the asset and the lender. The one
/// request frees the storage of the record and returns its cost to the
/// lender.
pub open spec fn close_outcome(
    before: CloseHire,
    derived: Option<(Seq<u8>, u8)>,
    after: CloseHire,
    r: Result<Instruction, DexloanError>,
) -> bool {
    match r {
        Ok(instruction) => {
            &&& close_refusal(before, derived) is None
            &&& after == closed(before)
            &&& instruction == (Instruction::CloseRecord {
                record: before.hire_account.key,
                destination: before.lender.key,
            })
        },
        Err(e) => close_refusal(before, derived) == Some(e) && after == before,
    }
}

/// Destroys the record, unless it is hired, and returns the cost of its
/// storage to the lender. `derived` is the address derived for the asset and
/// the lender, with its bump seed.
pub fn close_record(accounts: &mut CloseHire, derived: Option<(Pubkey, u8)>) -> (r: Result<
    Instruction,
    DexloanError,
>)
    ensures
        close_outcome(*old(accounts), address_view(derived), *final(accounts), r),
{
    let record = match accounts.hire_account.data {
        Some(record) => record,
        None => {
            return Err(DexloanError::AccountNotInitialized);
        },
    };
    match record.state {
        HireState::Listed => {},
        HireState::Hired => {
            return Err(DexloanError::NotExpired);
        },
    }
    if !accounts.lender.is_signer {
        return Err(DexloanError::MissingSignature);
    }
    if record.lender != accounts.lender.key {
        return Err(DexloanError::InvalidLender);
    }
    if record.mint != accounts.mint.key {
        return Err(DexloanError::InvalidMint);
    }
    match bump_of(&derived, &accounts.hire_account.key) {
        Some(bump) => {
            if bump != record.bump {
                return Err(DexloanError::DerivedKeyInvalid);
            }
        },
        None => {
            return Err(DexloanError::DerivedKeyInvalid);
        },
    }
    accounts.hire_account.data = None;
    Ok(
        Instruction::CloseRecord {
            record: accounts.hire_account.key,
            destination: accounts.lender.key,
        },
    )
}

/// Destroys the record of `ctx`: derives the record's address under the
/// program of `ctx` and closes at it.
pub fn close(ctx: &mut Context<CloseHire>) -> (r: Result<Instruction, DexloanError>)
    ensures
        final(ctx).program_id == old(ctx).program_id,
        close_outcome(
            old(ctx).accounts,
            hire_address(
                old(ctx).program_id,
                old(ctx).accounts.mint.key,
                old(ctx).accounts.lender.key,
            ),
            final(ctx).accounts,
            r,
        ),
{
    let derived = find_hire_address(
        &ctx.program_id,
        &ctx.accounts.mint.key,
        &ctx.accounts.lender.key,
    );
    close_record(&mut ctx.accounts, derived)
}


} // verus!
