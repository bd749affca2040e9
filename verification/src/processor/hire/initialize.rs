use crate::accounts::{Clock, Context, HireAccount, Mint, Wallet};
use crate::address::{find_hire_address, hire_address};
use crate::custody::{Instruction, TokenAccount};
use crate::error::DexloanError;
use crate::instructions::hire::{list, list_outcome};
use crate::pubkey::Pubkey;
use vstd::prelude::*;

verus! {

/// The terms of a listing.
#[derive(Clone, Copy, Debug, PartialEq, Eq)]
pub struct HireArgs {
    /// Fee of the rental; zero only for a named borrower.
    pub amount: u64,
    /// Time after which the term is over.
    pub expiry: i64,
    /// Who alone may take the asset, if anyone is named.
    pub borrower: Option<Pubkey>,
}

/// The accounts of a listing.
#[derive(Clone, Copy, Debug, PartialEq, Eq)]
pub struct InitHire {
    /// The owner who lists the asset.
    pub lender: Wallet,
    /// The lender's custody account of the asset.
    pub deposit_token_account: TokenAccount,
    /// Where the record will be stored.
    pub hire_account: HireAccount,
    /// The asset.
    pub mint: Mint,
    /// The edition of the asset, under which custody accounts are locked.
    pub edition: Pubkey,
    pub clock: Clock,
}

impl InitHire {
    /// The same accounts, as the listing transition takes them.
    pub open spec fn spec_accounts(&self) -> crate::instructions::hire::InitHire {
        crate::instructions::hire::InitHire {
            lender: self.lender,
            deposit_token_account: self.deposit_token_account,
            hire_account: self.hire_account,
            mint: self.mint,
            edition: self.edition,
            clock: self.clock,
        }
    }

    /// The same accounts, as the listing transition takes them.
    #[verifier::when_used_as_spec(spec_accounts)]
    pub fn accounts(&self) -> (a: crate::instructions::hire::InitHire)
        ensures
            a == self.spec_accounts(),
    {
        crate::instructions::hire::InitHire {
            lender: self.lender,
            deposit_token_account: self.deposit_token_account,
            hire_account: self.hire_account,
            mint: self.mint,
            edition: self.edition,
            clock: self.clock,
        }
    }
}

/// Lists the asset of `ctx` for rental on the terms `args`: derives the
/// record's address under the program of `ctx` and lists at it.
pub fn handle_init_hire(ctx: &mut Context<InitHire>, args: HireArgs) -> (r: Result<
    Vec<Instruction>,
    DexloanError,
>)
    ensures
        final(ctx).program_id == old(ctx).program_id,
        list_outcome(
            old(ctx).accounts.accounts(),
            hire_address(
                old(ctx).program_id,
                old(ctx).accounts.mint.key,
                old(ctx).accounts.lender.key,
            ),
            args.amount,
            args.expiry,
            args.borrower,
            final(ctx).accounts.accounts(),
            r,
        ),
{
    let derived = find_hire_address(
        &ctx.program_id,
        &ctx.accounts.mint.key,
        &ctx.accounts.lender.key,
    );
    let mut accounts = ctx.accounts.accounts();
    let r = list(&mut accounts, derived, args.amount, args.expiry, args.borrower);
    ctx.accounts.deposit_token_account = accounts.deposit_token_account;
    ctx.accounts.hire_account = accounts.hire_account;
    r
}

} // verus!
