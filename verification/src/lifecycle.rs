//! What holds of the transitions, one by one and in sequence.

use crate::address::derives;
use crate::accounts::{Mint, Wallet};
use crate::address::derives_key;
use crate::custody::{
    lock_instructions, lock_refusal, release_instructions, release_refusal, Instruction,
    TokenAccount,
};
use crate::error::DexloanError;
use crate::fees::{
    fee_payments, fees_total, lamports_paid, lemma_fee_payments_conserve,
    lemma_lamports_paid_concat, registry_entries,
};
use crate::instructions::hire::{
    activate_outcome, activate_refusal, close_outcome, close_refusal, list_outcome,
    reclaim_outcome, reclaim_refusal, CloseHire, InitHire, RevokeHire, TakeHire,
};
use crate::processor::hire::withdraw::{
    withdraw_outcome, withdraw_refusal, WithdrawFromHireEscrow,
};
use crate::pubkey::Pubkey;
use crate::state::hire::{Hire, HireState};
use vstd::prelude::*;

verus! {

/// Whether `account` holds the asset `mint` locked under `escrow`: it holds
/// something, and the escrow alone may move what it holds.
pub open spec fn locked_under(account: TokenAccount, escrow: Pubkey, mint: Pubkey) -> bool {
    &&& account.mint == mint
    &&& account.frozen
    &&& account.delegate == Some(escrow)
    &&& account.delegated_amount == account.amount
    &&& account.amount >= 1
}

/// Whether `account` holds nothing that binds it to an escrow: no lock and
/// no delegation.
pub open spec fn unbound(account: TokenAccount) -> bool {
    &&& !account.frozen
    &&& account.delegate is None
    &&& account.delegated_amount == 0
}

/// Whether the accounts of a listing are the lender's own: the lender signed,
/// no record exists yet at the address derived for the asset and the lender,
/// the asset is unique, and the custody account is the lender's account of
/// it.
pub open spec fn admitted_for_listing(a: InitHire, derived: Option<(Seq<u8>, u8)>) -> bool {
    &&& a.lender.is_signer
    &&& a.hire_account.data is None
    &&& derives_key(derived, a.hire_account.key)
    &&& a.mint.supply == 1
    &&& a.deposit_token_account.mint == a.mint.key
    &&& a.deposit_token_account.owner == a.lender.key
}

/// On the lender's own accounts a listing tests its terms before anything
/// else: an expiry that has passed is refused as `InvalidExpiry`, and after it
/// a listing without a fee and without a borrower as `BorrowerNotSpecified`,
/// whatever the custody account holds. Nothing is created and no request is
/// returned.
pub proof fn listing_tests_the_terms_first(
    before: InitHire,
    derived: Option<(Seq<u8>, u8)>,
    amount: u64,
    expiry: i64,
    borrower: Option<Pubkey>,
    after: InitHire,
    r: Result<Vec<Instruction>, DexloanError>,
)
    requires
        list_outcome(before, derived, amount, expiry, borrower, after, r),
        admitted_for_listing(before, derived),
    ensures
        before.clock.unix_timestamp > expiry ==> r == Err::<Vec<Instruction>, _>(
            DexloanError::InvalidExpiry,
        ),
        before.clock.unix_timestamp <= expiry && amount == 0 && borrower is None ==> r == Err::<
            Vec<Instruction>,
            _,
        >(DexloanError::BorrowerNotSpecified),
        r is Err ==> after == before && after.hire_account.data is None,
{
}

/// A listing on valid terms succeeds where the accounts are the lender's
/// own, the custody account holds exactly one unit and the custody service
/// does not refuse the lock. The record is then `Listed` on the terms asked
/// for; the requests are the approval of one unit by the lender, then the
/// freeze under the record's path; and the custody account comes back locked,
/// still holding its unit.
pub proof fn valid_listing_succeeds(
    before: InitHire,
    derived: Option<(Seq<u8>, u8)>,
    amount: u64,
    expiry: i64,
    borrower: Option<Pubkey>,
    after: InitHire,
    r: Result<Vec<Instruction>, DexloanError>,
)
    requires
        list_outcome(before, derived, amount, expiry, borrower, after, r),
        admitted_for_listing(before, derived),
        before.clock.unix_timestamp <= expiry,
        amount > 0 || borrower is Some,
        before.deposit_token_account.amount == 1,
        lock_refusal(
            before.deposit_token_account,
            before.lender,
            before.hire_account.key,
            before.mint.key,
        ) is None,
    ensures
        r is Ok,
        after.hire_account.data matches Some(record) && {
            &&& record.state == HireState::Listed
            &&& record.amount == amount
            &&& record.expiry == expiry
            &&& record.borrower == borrower
            &&& record.lender == before.lender.key
            &&& record.mint == before.mint.key
            &&& r->Ok_0@ == seq![
                Instruction::Approve {
                    to: before.deposit_token_account.key,
                    delegate: before.hire_account.key,
                    authority: before.lender.key,
                    amount: 1,
                },
                Instruction::Freeze {
                    delegate: before.hire_account.key,
                    token_account: before.deposit_token_account.key,
                    edition: before.edition,
                    mint: before.mint.key,
                    signer_seeds: record.signer_seeds(),
                },
            ]
        },
        locked_under(after.deposit_token_account, before.hire_account.key, before.mint.key),
        after.deposit_token_account.amount == 1,
        after.deposit_token_account.owner == before.lender.key,
{
}

/// After every listing that succeeds the record is `Listed` on the terms
/// asked for, a listing without a fee names its borrower, the expiry has not
/// passed, and the asset stands locked in the lender's own custody account
/// under the record's address: it has not moved.
pub proof fn listing_locks_the_lenders_custody(
    before: InitHire,
    derived: Option<(Seq<u8>, u8)>,
    amount: u64,
    expiry: i64,
    borrower: Option<Pubkey>,
    after: InitHire,
    r: Result<Vec<Instruction>, DexloanError>,
)
    requires
        list_outcome(before, derived, amount, expiry, borrower, after, r),
        r is Ok,
    ensures
        after.hire_account.data matches Some(record) && {
            &&& record.state == HireState::Listed
            &&& record.amount == amount
            &&& record.expiry == expiry
            &&& record.borrower == borrower
            &&& record.lender == before.lender.key
            &&& record.mint == before.mint.key
            &&& record.escrow_balance == 0
            &&& derives(derived, after.hire_account.key, record.bump)
            &&& record.well_formed()
            &&& before.clock.unix_timestamp <= record.expiry
        },
        locked_under(after.deposit_token_account, before.hire_account.key, before.mint.key),
        after.deposit_token_account.owner == before.lender.key,
        after.deposit_token_account.amount == 1,
        after.deposit_token_account.delegated_amount == 1,
{
}

/// After every activation that succeeds the record is `Hired` with the
/// caller as borrower, the asset stands locked in the rental custody account
/// under the record's address, the lender's custody account is unlocked, and
/// the payments add up to the fee: the creators are paid their shares rounded
/// down, and the lender is paid all the rest in the last payment.
pub proof fn activation_hires_and_pays_the_fee(
    before: TakeHire,
    derived: Option<(Seq<u8>, u8)>,
    after: TakeHire,
    r: Result<Vec<Instruction>, DexloanError>,
)
    requires
        activate_outcome(before, derived, after, r),
        r is Ok,
    ensures
        before.hire_account.data matches Some(listed) && after.hire_account.data matches Some(
            record,
        ) && {
            &&& listed.state == HireState::Listed
            &&& record.state == HireState::Hired
            &&& record.borrower == Some(before.borrower.key)
            &&& record.well_formed()
            &&& record.amount == listed.amount
            &&& lamports_paid(r->Ok_0@) == listed.amount
            &&& r->Ok_0@.len() == registry_entries(before.metadata).len() + 5
            &&& r->Ok_0@[registry_entries(before.metadata).len() as int] == (Instruction::Pay {
                from: before.borrower.key,
                to: before.lender.key,
                lamports: (listed.amount - fees_total(
                    listed.amount,
                    registry_entries(before.metadata),
                )) as u64,
            })
        },
        locked_under(after.hire_token_account, before.hire_account.key, before.mint.key),
        after.hire_token_account.amount == before.hire_token_account.amount + 1,
        after.hire_token_account.owner == before.borrower.key,
        !after.deposit_token_account.frozen,
        after.deposit_token_account.amount == before.deposit_token_account.amount - 1,
{
    let listed = before.hire_account.data->Some_0;
    let entries = registry_entries(before.metadata);
    let fees = fee_payments(before.borrower.key, before.lender.key, listed.amount, entries);
    let moves = release_instructions(
        before.deposit_token_account,
        before.hire_token_account,
        before.hire_account.key,
        before.edition,
        before.mint.key,
        listed.signer_seeds(),
    );
    let locks = lock_instructions(
        before.hire_token_account.credited(1),
        before.borrower,
        before.hire_account.key,
        before.edition,
        before.mint.key,
        listed.signer_seeds(),
    );
    lemma_fee_payments_conserve(before.borrower.key, before.lender.key, listed.amount, entries);
    lemma_lamports_paid_concat(fees, moves);
    lemma_lamports_paid_concat(fees + moves, locks);
    assert(lamports_paid(moves) == 0) by {
        reveal_with_fuel(lamports_paid, 3);
    }
    assert(lamports_paid(locks) == 0) by {
        reveal_with_fuel(lamports_paid, 3);
    }
}

/// Whether the accounts handed in with `record` are the record's own: its
/// lender, its asset, which is unique, and the address derived for the two,
/// with the record's bump seed.
pub open spec fn own_accounts(
    record: Hire,
    key: Pubkey,
    lender: Wallet,
    mint: Mint,
    derived: Option<(Seq<u8>, u8)>,
) -> bool {
    &&& record.lender == lender.key
    &&& record.mint == mint.key
    &&& mint.supply == 1
    &&& derives(derived, key, record.bump)
}

/// An activation of a `Listed` record succeeds where the caller signs and is
/// the borrower that the listing is reserved for, if it is reserved; the
/// accounts are the record's own; the creators' fees are within the fee; and
/// the custody service refuses neither the release nor the lock. The record is
/// then `Hired` and names the caller as borrower; a borrower that the listing
/// was reserved for is the same as before.
pub proof fn valid_activation_succeeds(
    before: TakeHire,
    derived: Option<(Seq<u8>, u8)>,
    after: TakeHire,
    r: Result<Vec<Instruction>, DexloanError>,
)
    requires
        activate_outcome(before, derived, after, r),
        before.hire_account.data matches Some(record) && {
            &&& record.state == HireState::Listed
            &&& record.borrower is None || record.borrower == Some(before.borrower.key)
            &&& own_accounts(record, before.hire_account.key, before.lender, before.mint, derived)
            &&& fees_total(record.amount, registry_entries(before.metadata)) <= record.amount
        },
        before.borrower.is_signer,
        release_refusal(
            before.deposit_token_account,
            before.hire_token_account,
            before.hire_account.key,
            before.mint.key,
        ) is None,
        lock_refusal(
            before.hire_token_account.credited(1),
            before.borrower,
            before.hire_account.key,
            before.mint.key,
        ) is None,
    ensures
        r is Ok,
        before.hire_account.data matches Some(listed) && after.hire_account.data matches Some(
            record,
        ) && {
            &&& record.state == HireState::Hired
            &&& record.borrower == Some(before.borrower.key)
            &&& listed.borrower is Some ==> record.borrower == listed.borrower
            &&& record == Hire {
                state: HireState::Hired,
                borrower: Some(before.borrower.key),
                ..listed
            }
        },
{
}

/// An activation of a record that is not `Listed`, or of no record, fails
/// and changes nothing, however often it is tried.
pub proof fn activation_needs_a_listed_record(
    before: TakeHire,
    derived: Option<(Seq<u8>, u8)>,
    after: TakeHire,
    r: Result<Vec<Instruction>, DexloanError>,
)
    requires
        activate_outcome(before, derived, after, r),
        !(before.hire_account.data matches Some(record) && record.state == HireState::Listed),
    ensures
        r is Err,
        before.hire_account.data is Some ==> r == Err::<Vec<Instruction>, _>(
            DexloanError::InvalidState,
        ),
        after == before,
{
}

/// A reclamation before the expiry of the record fails with `NotExpired` and
/// changes nothing, whoever calls and whatever the state.
pub proof fn reclaim_before_expiry_is_refused(
    before: RevokeHire,
    derived: Option<(Seq<u8>, u8)>,
    after: RevokeHire,
    r: Result<Vec<Instruction>, DexloanError>,
)
    requires
        reclaim_outcome(before, derived, after, r),
        before.hire_account.data matches Some(record) && before.clock.unix_timestamp
            < record.expiry,
    ensures
        r == Err::<Vec<Instruction>, _>(DexloanError::NotExpired),
        after == before,
{
}

/// Whether the accounts of a reclamation are those of the hired record of
/// the asset, handed in by its lender, with custody as an activation leaves
/// it and the lender's custody account able to take the asset back.
pub open spec fn reclaimable(a: RevokeHire, derived: Option<(Seq<u8>, u8)>) -> bool {
    &&& a.hire_account.data matches Some(record)
    &&& record.state == HireState::Hired
    &&& a.lender.is_signer
    &&& own_accounts(record, a.hire_account.key, a.lender, a.mint, derived)
    &&& locked_under(a.hire_token_account, a.hire_account.key, a.mint.key)
    &&& a.deposit_token_account.key != a.hire_token_account.key
    &&& a.deposit_token_account.mint == a.mint.key
    &&& a.deposit_token_account.owner == a.lender.key
    &&& !a.deposit_token_account.frozen
    &&& a.deposit_token_account.amount < u64::MAX
}

/// A reclamation of a hired record at or after its expiry succeeds, and
/// leaves the record, its state included, as it was.
pub proof fn reclaim_after_expiry_succeeds(
    before: RevokeHire,
    derived: Option<(Seq<u8>, u8)>,
    after: RevokeHire,
    r: Result<Vec<Instruction>, DexloanError>,
)
    requires
        reclaim_outcome(before, derived, after, r),
        reclaimable(before, derived),
        before.hire_account.data->Some_0.expiry <= before.clock.unix_timestamp,
    ensures
        r is Ok,
        after.hire_account == before.hire_account,
        after.hire_account.data->Some_0.state == HireState::Hired,
{
}

/// A reclamation never alters the record, whether it succeeds or fails.
pub proof fn reclaim_keeps_the_record(
    before: RevokeHire,
    derived: Option<(Seq<u8>, u8)>,
    after: RevokeHire,
    r: Result<Vec<Instruction>, DexloanError>,
)
    requires
        reclaim_outcome(before, derived, after, r),
    ensures
        after.hire_account == before.hire_account,
{
}

/// A closure of a hired record fails with `NotExpired` and changes nothing,
/// whatever the time.
pub proof fn close_of_a_hired_record_is_refused(
    before: CloseHire,
    derived: Option<(Seq<u8>, u8)>,
    after: CloseHire,
    r: Result<Instruction, DexloanError>,
)
    requires
        close_outcome(before, derived, after, r),
        before.hire_account.data matches Some(record) && record.state == HireState::Hired,
    ensures
        r == Err::<Instruction, _>(DexloanError::NotExpired),
        after == before,
{
}

/// A closure of a record that is not hired, asked for by its lender at the
/// record's own address, succeeds, and no record is stored afterwards.
pub proof fn close_of_a_listed_record_succeeds(
    before: CloseHire,
    derived: Option<(Seq<u8>, u8)>,
    after: CloseHire,
    r: Result<Instruction, DexloanError>,
)
    requires
        close_outcome(before, derived, after, r),
        before.hire_account.data matches Some(record) && {
            &&& record.state != HireState::Hired
            &&& before.lender.is_signer
            &&& record.lender == before.lender.key
            &&& record.mint == before.mint.key
            &&& derives(derived, before.hire_account.key, record.bump)
        },
    ensures
        r is Ok,
        after.hire_account.data is None,
        after.hire_account.key == before.hire_account.key,
{
}

/// A withdrawal that succeeds pays the lender all that the record held, leaves
/// the record nothing to pay out again, and changes neither its state nor its
/// terms.
pub proof fn withdrawal_drains_the_balance_only(
    before: WithdrawFromHireEscrow,
    derived: Option<(Seq<u8>, u8)>,
    after: WithdrawFromHireEscrow,
    r: Result<Instruction, DexloanError>,
)
    requires
        withdraw_outcome(before, derived, after, r),
        r is Ok,
    ensures
        before.hire.data matches Some(held) && after.hire.data matches Some(record) && {
            &&& held.state != HireState::Hired
            &&& held.borrower is None
            &&& r->Ok_0 == (Instruction::Release {
                from: before.hire.key,
                to: held.lender,
                lamports: held.escrow_balance,
            })
            &&& record.escrow_balance == 0
            &&& record.state == held.state
            &&& record.amount == held.amount
            &&& record.expiry == held.expiry
            &&& record.borrower == held.borrower
            &&& held.well_formed() ==> record.well_formed()
        },
{
}

/// A record that was closed cannot be read: every transition on its address
/// fails with `AccountNotInitialized`, until a listing creates a record there
/// again.
pub proof fn closed_record_is_unreadable(
    take: TakeHire,
    revoke: RevokeHire,
    close: CloseHire,
    withdraw: WithdrawFromHireEscrow,
    derived: Option<(Seq<u8>, u8)>,
)
    ensures
        take.hire_account.data is None ==> activate_refusal(take, derived) == Some(
            DexloanError::AccountNotInitialized,
        ),
        revoke.hire_account.data is None ==> reclaim_refusal(revoke, derived) == Some(
            DexloanError::AccountNotInitialized,
        ),
        close.hire_account.data is None ==> close_refusal(close, derived) == Some(
            DexloanError::AccountNotInitialized,
        ),
        withdraw.hire.data is None ==> withdraw_refusal(withdraw, derived) == Some(
            DexloanError::AccountNotInitialized,
        ),
{
}

/// Listing, activation and reclamation in sequence, each on the custody
/// accounts and the record that the one before left, return the asset to the
/// lender's custody account: it holds the one unit again, no delegation is
/// left on it and no lock, and the rental custody account is as it was but
/// for its delegation, which is gone. The record is still `Hired`, so a
/// closure that follows is refused with `NotExpired`.
pub proof fn round_trip_returns_the_asset(
    listing: (InitHire, InitHire),
    amount: u64,
    expiry: i64,
    borrower: Option<Pubkey>,
    activation: (TakeHire, TakeHire),
    reclamation: (RevokeHire, RevokeHire),
    closure: (CloseHire, CloseHire),
    derived: Option<(Seq<u8>, u8)>,
    results: (
        Result<Vec<Instruction>, DexloanError>,
        Result<Vec<Instruction>, DexloanError>,
        Result<Vec<Instruction>, DexloanError>,
        Result<Instruction, DexloanError>,
    ),
)
    requires
        list_outcome(listing.0, derived, amount, expiry, borrower, listing.1, results.0),
        results.0 is Ok,
        activation.0.deposit_token_account == listing.1.deposit_token_account,
        activation.0.hire_account == listing.1.hire_account,
        activate_outcome(activation.0, derived, activation.1, results.1),
        results.1 is Ok,
        reclamation.0.deposit_token_account == activation.1.deposit_token_account,
        reclamation.0.hire_token_account == activation.1.hire_token_account,
        reclamation.0.hire_account == activation.1.hire_account,
        reclaim_outcome(reclamation.0, derived, reclamation.1, results.2),
        results.2 is Ok,
        closure.0.hire_account == reclamation.1.hire_account,
        close_outcome(closure.0, derived, closure.1, results.3),
    ensures
        reclamation.1.deposit_token_account == listing.0.deposit_token_account.revoked(),
        reclamation.1.deposit_token_account.amount == 1,
        reclamation.1.deposit_token_account.owner == listing.0.lender.key,
        unbound(reclamation.1.deposit_token_account),
        reclamation.1.hire_token_account == activation.0.hire_token_account.revoked(),
        unbound(reclamation.1.hire_token_account),
        reclamation.1.hire_account.data matches Some(record) && record.state == HireState::Hired,
        results.3 == Err::<Instruction, _>(DexloanError::NotExpired),
        closure.1 == closure.0,
{
}

} // verus!
