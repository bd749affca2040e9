use crate::accounts::{Context, HireAccount, Mint, Wallet};
use crate::address::{address_view, bump_of, derives, find_hire_address, hire_address};
use crate::custody::Instruction;
use crate::error::DexloanError;
use crate::pubkey::Pubkey;
use crate::state::hire::{Hire, HireState};
use vstd::prelude::*;

verus! {

/// The accounts of a withdrawal of escrowed funds.
#[derive(Clone, Copy, Debug, PartialEq, Eq)]
pub struct WithdrawFromHireEscrow {
    /// The caller, who listed the asset.
    pub lender: Wallet,
    /// Where the record is stored.
    pub hire: HireAccount,
    /// The asset.
    pub mint: Mint,
}

/// Why a withdrawal is refused, if it is. The checks stand in the order in
/// which they are made; the first that fails decides.
pub open spec fn withdraw_refusal(a: WithdrawFromHireEscrow, derived: Option<(Seq<u8>, u8)>)
    -> Option<DexloanError> {
    match a.hire.data {
        None => Some(DexloanError::AccountNotInitialized),
        Some(record) => {
            if record.state == HireState::Hired {
                Some(DexloanError::InvalidState)
            } else if record.borrower is Some {
                Some(DexloanError::BorrowerAssigned)
            } else if !a.lender.is_signer {
                Some(DexloanError::MissingSignature)
            } else if record.lender != a.lender.key {
                Some(DexloanError::InvalidLender)
            } else if record.mint != a.mint.key {
                Some(DexloanError::InvalidMint)
            } else if !derives(derived, a.hire.key, record.bump) {
                Some(DexloanError::DerivedKeyInvalid)
            } else {
                None
            }
        },
    }
}

/// The accounts after a withdrawal from `record`: the record holds no funds
/// for the lender any more, and is otherwise as it was.
pub open spec fn withdrawn(a: WithdrawFromHireEscrow, record: Hire) -> WithdrawFromHireEscrow {
    WithdrawFromHireEscrow {
        hire: HireAccount { key: a.hire.key, data: Some(Hire { escrow_balance: 0, ..record }) },
        ..a
    }
}

/// What a withdrawal does: `after` and `r` for the accounts `before`, where
/// `derived` is the address derived for the asset and the lender. The one
/// request pays out all that the record held for the lender.
pub open spec fn withdraw_outcome(
    before: WithdrawFromHireEscrow,
    derived: Option<(Seq<u8>, u8)>,
    after: WithdrawFromHireEscrow,
    r: Result<Instruction, DexloanError>,
) -> bool {
    match r {
        Ok(instruction) => {
            &&& withdraw_refusal(before, derived) is None
            &&& before.hire.data matches Some(record)
            &&& after == withdrawn(before, record)
            &&& instruction == (Instruction::Release {
                from: before.hire.key,
                to: before.lender.key,
                lamports: record.escrow_balance,
            })
        },
        Err(e) => {
            &&& withdraw_refusal(before, derived) == Some(e)
            &&& after == before
        },
    }
}

/// Pays the funds that the record holds for the lender out to the lender
/// and sets the balance to zero. `derived` is the address derived for the
/// asset and the lender, with its bump seed.
///
/// Refused while the record is hired or a borrower is assigned. The state of
/// the record does not change.
pub fn withdraw_from_escrow_balance(
    accounts: &mut WithdrawFromHireEscrow,
    derived: Option<(Pubkey, u8)>,
) -> (r: Result<Instruction, DexloanError>)
    ensures
        withdraw_outcome(*old(accounts), address_view(derived), *final(accounts), r),
{
    let record = match accounts.hire.data {
        Some(record) => record,
        None => {
            return Err(DexloanError::AccountNotInitialized);
        },
    };
    match record.state {
        HireState::Listed => {},
        HireState::Hired => {
            return Err(DexloanError::InvalidState);
        },
    }
    if record.borrower.is_some() {
        return Err(DexloanError::BorrowerAssigned);
    }
    if !accounts.lender.is_signer {
        return Err(DexloanError::MissingSignature);
    }
    if record.lender != accounts.lender.key {
        return Err(DexloanError::InvalidLender);
    }
    if record.mint != accounts.mint.key {
        return Err(DexloanError::InvalidMint);
    }
    match bump_of(&derived, &accounts.hire.key) {
        Some(bump) => {
            if bump != record.bump {
                return Err(DexloanError::DerivedKeyInvalid);
            }
        },
        None => {
            return Err(DexloanError::DerivedKeyInvalid);
        },
    }
    accounts.hire.data = Some(Hire { escrow_balance: 0, ..record });
    Ok(
        Instruction::Release {
            from: accounts.hire.key,
            to: accounts.lender.key,
            lamports: record.escrow_balance,
        },
    )
}

/// Pays the escrowed funds of the record of `ctx` out to the lender: derives
/// the record's address under the program of `ctx` and withdraws at it.
pub fn handle_withdraw_from_hire_escrow(ctx: &mut Context<WithdrawFromHireEscrow>) -> (r: Result<
    Instruction,
    DexloanError,
>)
    ensures
        final(ctx).program_id == old(ctx).program_id,
        withdraw_outcome(
            old(ctx).accounts,
            hire_address(
                old(ctx).program_id,
                old(ctx).accounts.mint.key,
                old(ctx).accounts.lender.key,
            ),
            final(ctx).accounts,
            r,
        ),
{
    let derived = find_hire_address(
        &ctx.program_id,
        &ctx.accounts.mint.key,
        &ctx.accounts.lender.key,
    );
    withdraw_from_escrow_balance(&mut ctx.accounts, derived)
}

} // verus!
