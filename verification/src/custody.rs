//! The custody service, as far as the escrow relies on it.
//!
//! The service itself is external. What stands here is the contract that the
//! escrow expects of it: which requests it honours, and what an honoured
//! request does to a custody account. Each step below decides a request as
//! the service is expected to, applies it to the caller's copy of the
//! account, and hands back the instruction to send to the service.

use crate::accounts::Wallet;
use crate::error::CustodyError;
use crate::pubkey::Pubkey;
use crate::state::hire::SignerSeeds;
use vstd::prelude::*;

verus! {

/// An account that holds units of one asset for an owner.
#[derive(Clone, Copy, Debug, PartialEq, Eq)]
pub struct TokenAccount {
    pub key: Pubkey,
    /// The asset held.
    pub mint: Pubkey,
    pub owner: Pubkey,
    /// Units held.
    pub amount: u64,
    /// Who may move units besides the owner.
    pub delegate: Option<Pubkey>,
    /// How many units the delegate may still move.
    pub delegated_amount: u64,
    /// Locked: nothing moves out, and no delegation changes.
    pub frozen: bool,
}

/// A request to an external service, in the order in which the caller of a
/// transition must send it.
#[derive(Clone, Copy, Debug, PartialEq, Eq)]
pub enum Instruction {
    /// Let `delegate` move up to `amount` units out of `to`; `authority`
    /// owns the account and signs.
    Approve { to: Pubkey, delegate: Pubkey, authority: Pubkey, amount: u64 },
    /// Withdraw any delegation over `source`; `authority` owns it and signs.
    Revoke { source: Pubkey, authority: Pubkey },
    /// Lock `token_account`; `delegate` acts by `signer_seeds`.
    Freeze {
        delegate: Pubkey,
        token_account: Pubkey,
        edition: Pubkey,
        mint: Pubkey,
        signer_seeds: SignerSeeds,
    },
    /// Unlock `token_account`; `delegate` acts by `signer_seeds`.
    Thaw {
        delegate: Pubkey,
        token_account: Pubkey,
        edition: Pubkey,
        mint: Pubkey,
        signer_seeds: SignerSeeds,
    },
    /// Move `amount` units from `from` to `to`; `authority` is the delegate
    /// of `from` and acts by `signer_seeds`.
    Transfer { from: Pubkey, to: Pubkey, authority: Pubkey, amount: u64, signer_seeds: SignerSeeds },
    /// Pay `lamports` from `from`, who signs, to `to`.
    Pay { from: Pubkey, to: Pubkey, lamports: u64 },
    /// Release `lamports` held by the record `from` to `to`.
    Release { from: Pubkey, to: Pubkey, lamports: u64 },
    /// Free the storage of `record` and return its cost to `destination`.
    CloseRecord { record: Pubkey, destination: Pubkey },
}

impl TokenAccount {
    /// Why the service refuses a change of delegation by `authority`, if it
    /// does: the account is locked, or `authority` does not own it, or did
    /// not sign.
    pub open spec fn delegation_refusal(self, authority: Wallet) -> Option<CustodyError> {
        if self.frozen {
            Some(CustodyError::AccountFrozen)
        } else if authority.key != self.owner {
            Some(CustodyError::OwnerMismatch)
        } else if !authority.is_signer {
            Some(CustodyError::MissingSignature)
        } else {
            None
        }
    }

    /// The account once `delegate` may move `amount` units of it.
    pub open spec fn approved(self, delegate: Pubkey, amount: u64) -> TokenAccount {
        TokenAccount { delegate: Some(delegate), delegated_amount: amount, ..self }
    }

    /// The account without any delegation.
    pub open spec fn revoked(self) -> TokenAccount {
        TokenAccount { delegate: None, delegated_amount: 0, ..self }
    }

    /// Why the service does not let `delegate` lock or unlock the account,
    /// if it does not: the account holds another asset than `mint`, or
    /// nothing, or `delegate` is not the delegate over all that it holds.
    pub open spec fn delegate_refusal(self, delegate: Pubkey, mint: Pubkey) -> Option<
        CustodyError,
    > {
        if self.mint != mint {
            Some(CustodyError::MintMismatch)
        } else if self.amount < 1 {
            Some(CustodyError::InsufficientFunds)
        } else if self.delegate != Some(delegate) || self.delegated_amount != self.amount {
            Some(CustodyError::InvalidDelegate)
        } else {
            None
        }
    }

    /// Why the service refuses to lock the account for `delegate`, if it
    /// does: `delegate` may not, or the account is locked already.
    pub open spec fn freeze_refusal(self, delegate: Pubkey, mint: Pubkey) -> Option<CustodyError> {
        if self.delegate_refusal(delegate, mint) is Some {
            self.delegate_refusal(delegate, mint)
        } else if self.frozen {
            Some(CustodyError::AccountFrozen)
        } else {
            None
        }
    }

    /// Why the service refuses to unlock the account for `delegate`, if it
    /// does: `delegate` may not, or the account is not locked.
    pub open spec fn thaw_refusal(self, delegate: Pubkey, mint: Pubkey) -> Option<CustodyError> {
        if self.delegate_refusal(delegate, mint) is Some {
            self.delegate_refusal(delegate, mint)
        } else if !self.frozen {
            Some(CustodyError::AccountNotFrozen)
        } else {
            None
        }
    }

    /// The account with its lock set to `frozen`.
    pub open spec fn with_lock(self, frozen: bool) -> TokenAccount {
        TokenAccount { frozen, ..self }
    }

    /// Why the service refuses to let `authority` move `amount` units from
    /// `self` to `to`, if it does.
    pub open spec fn transfer_refusal(
        self,
        to: TokenAccount,
        authority: Pubkey,
        amount: u64,
    ) -> Option<CustodyError> {
        if self.key == to.key {
            Some(CustodyError::SameAccount)
        } else if self.frozen || to.frozen {
            Some(CustodyError::AccountFrozen)
        } else if self.amount < amount {
            Some(CustodyError::InsufficientFunds)
        } else if self.mint != to.mint {
            Some(CustodyError::MintMismatch)
        } else if self.delegate != Some(authority) || self.delegated_amount < amount {
            Some(CustodyError::InvalidDelegate)
        } else if to.amount + amount > u64::MAX {
            Some(CustodyError::Overflow)
        } else {
            None
        }
    }

    /// The account after its delegate moved `amount` units out of it. A
    /// delegation that is used up ends.
    pub open spec fn debited(self, amount: u64) -> TokenAccount {
        TokenAccount {
            amount: (self.amount - amount) as u64,
            delegated_amount: (self.delegated_amount - amount) as u64,
            delegate: if self.delegated_amount == amount {
                None
            } else {
                self.delegate
            },
            ..self
        }
    }

    /// The account after `amount` units arrived.
    pub open spec fn credited(self, amount: u64) -> TokenAccount {
        TokenAccount { amount: (self.amount + amount) as u64, ..self }
    }

    /// Whether `delegate` is the delegate of the account.
    pub fn is_delegate(&self, delegate: &Pubkey) -> (yes: bool)
        ensures
            yes == (self.delegate == Some(*delegate)),
    {
        match &self.delegate {
            Some(current) => *current == *delegate,
            None => false,
        }
    }

    /// Decides whether `delegate` may lock or unlock the account.
    pub fn check_delegate(&self, delegate: &Pubkey, mint: &Pubkey) -> (r: Result<(), CustodyError>)
        ensures
            match r {
                Ok(()) => self.delegate_refusal(*delegate, *mint) is None,
                Err(e) => self.delegate_refusal(*delegate, *mint) == Some(e),
            },
    {
        if self.mint != *mint {
            return Err(CustodyError::MintMismatch);
        }
        if self.amount < 1 {
            return Err(CustodyError::InsufficientFunds);
        }
        if !self.is_delegate(delegate) || self.delegated_amount != self.amount {
            return Err(CustodyError::InvalidDelegate);
        }
        Ok(())
    }

    /// Grants `delegate` authority to move `amount` units, on the word of
    /// `authority`.
    pub fn approve(&mut self, delegate: &Pubkey, authority: &Wallet, amount: u64) -> (r: Result<
        Instruction,
        CustodyError,
    >)
        ensures
            match r {
                Ok(ix) => {
                    &&& old(self).delegation_refusal(*authority) is None
                    &&& *final(self) == old(self).approved(*delegate, amount)
                    &&& ix == (Instruction::Approve {
                        to: old(self).key,
                        delegate: *delegate,
                        authority: authority.key,
                        amount,
                    })
                },
                Err(e) => {
                    &&& old(self).delegation_refusal(*authority) == Some(e)
                    &&& *final(self) == *old(self)
                },
            },
    {
        if self.frozen {
            return Err(CustodyError::AccountFrozen);
        }
        if authority.key != self.owner {
            return Err(CustodyError::OwnerMismatch);
        }
        if !authority.is_signer {
            return Err(CustodyError::MissingSignature);
        }
        self.delegate = Some(*delegate);
        self.delegated_amount = amount;
        Ok(Instruction::Approve { to: self.key, delegate: *delegate, authority: authority.key, amount })
    }

    /// Withdraws any delegation, on the word of `authority`.
    pub fn revoke(&mut self, authority: &Wallet) -> (r: Result<Instruction, CustodyError>)
        ensures
            match r {
                Ok(ix) => {
                    &&& old(self).delegation_refusal(*authority) is None
                    &&& *final(self) == old(self).revoked()
                    &&& ix == (Instruction::Revoke {
                        source: old(self).key,
                        authority: authority.key,
                    })
                },
                Err(e) => {
                    &&& old(self).delegation_refusal(*authority) == Some(e)
                    &&& *final(self) == *old(self)
                },
            },
    {
        if self.frozen {
            return Err(CustodyError::AccountFrozen);
        }
        if authority.key != self.owner {
            return Err(CustodyError::OwnerMismatch);
        }
        if !authority.is_signer {
            return Err(CustodyError::MissingSignature);
        }
        self.delegate = None;
        self.delegated_amount = 0;
        Ok(Instruction::Revoke { source: self.key, authority: authority.key })
    }

    /// Locks the account under `delegate`, which acts by `signer_seeds`.
    pub fn freeze(
        &mut self,
        delegate: &Pubkey,
        edition: &Pubkey,
        mint: &Pubkey,
        signer_seeds: &SignerSeeds,
    ) -> (r: Result<Instruction, CustodyError>)
        ensures
            match r {
                Ok(ix) => {
                    &&& old(self).freeze_refusal(*delegate, *mint) is None
                    &&& *final(self) == old(self).with_lock(true)
                    &&& ix == (Instruction::Freeze {
                        delegate: *delegate,
                        token_account: old(self).key,
                        edition: *edition,
                        mint: *mint,
                        signer_seeds: *signer_seeds,
                    })
                },
                Err(e) => {
                    &&& old(self).freeze_refusal(*delegate, *mint) == Some(e)
                    &&& *final(self) == *old(self)
                },
            },
    {
        match self.check_delegate(delegate, mint) {
            Ok(()) => {},
            Err(e) => {
                return Err(e);
            },
        }
        if self.frozen {
            return Err(CustodyError::AccountFrozen);
        }
        self.frozen = true;
        Ok(
            Instruction::Freeze {
                delegate: *delegate,
                token_account: self.key,
                edition: *edition,
                mint: *mint,
                signer_seeds: *signer_seeds,
            },
        )
    }

    /// Unlocks the account under `delegate`, which acts by `signer_seeds`.
    pub fn thaw(
        &mut self,
        delegate: &Pubkey,
        edition: &Pubkey,
        mint: &Pubkey,
        signer_seeds: &SignerSeeds,
    ) -> (r: Result<Instruction, CustodyError>)
        ensures
            match r {
                Ok(ix) => {
                    &&& old(self).thaw_refusal(*delegate, *mint) is None
                    &&& *final(self) == old(self).with_lock(false)
                    &&& ix == (Instruction::Thaw {
                        delegate: *delegate,
                        token_account: old(self).key,
                        edition: *edition,
                        mint: *mint,
                        signer_seeds: *signer_seeds,
                    })
                },
                Err(e) => {
                    &&& old(self).thaw_refusal(*delegate, *mint) == Some(e)
                    &&& *final(self) == *old(self)
                },
            },
    {
        match self.check_delegate(delegate, mint) {
            Ok(()) => {},
            Err(e) => {
                return Err(e);
            },
        }
        if !self.frozen {
            return Err(CustodyError::AccountNotFrozen);
        }
        self.frozen = false;
        Ok(
            Instruction::Thaw {
                delegate: *delegate,
                token_account: self.key,
                edition: *edition,
                mint: *mint,
                signer_seeds: *signer_seeds,
            },
        )
    }

    /// Moves `amount` units from `self` to `to` under `authority`, the
    /// delegate of `self`, which acts by `signer_seeds`.
    pub fn transfer(
        &mut self,
        to: &mut TokenAccount,
        authority: &Pubkey,
        amount: u64,
        signer_seeds: &SignerSeeds,
    ) -> (r: Result<Instruction, CustodyError>)
        ensures
            match r {
                Ok(ix) => {
                    &&& old(self).transfer_refusal(*old(to), *authority, amount) is None
                    &&& *final(self) == old(self).debited(amount)
                    &&& *final(to) == old(to).credited(amount)
                    &&& ix == (Instruction::Transfer {
                        from: old(self).key,
                        to: old(to).key,
                        authority: *authority,
                        amount,
                        signer_seeds: *signer_seeds,
                    })
                },
                Err(e) => {
                    &&& old(self).transfer_refusal(*old(to), *authority, amount) == Some(e)
                    &&& *final(self) == *old(self)
                    &&& *final(to) == *old(to)
                },
            },
    {
        if self.key == to.key {
            return Err(CustodyError::SameAccount);
        }
        if self.frozen || to.frozen {
            return Err(CustodyError::AccountFrozen);
        }
        if self.amount < amount {
            return Err(CustodyError::InsufficientFunds);
        }
        if self.mint != to.mint {
            return Err(CustodyError::MintMismatch);
        }
        if !self.is_delegate(authority) || self.delegated_amount < amount {
            return Err(CustodyError::InvalidDelegate);
        }
        if amount > u64::MAX - to.amount {
            return Err(CustodyError::Overflow);
        }
        self.amount = self.amount - amount;
        self.delegated_amount = self.delegated_amount - amount;
        if self.delegated_amount == 0 {
            self.delegate = None;
        }
        to.amount = to.amount + amount;
        Ok(
            Instruction::Transfer {
                from: self.key,
                to: to.key,
                authority: *authority,
                amount,
                signer_seeds: *signer_seeds,
            },
        )
    }
}

/// Why the service refuses to lock `account` under `escrow` on the word of
/// `owner`, if it does: it refuses the delegation, or it refuses the lock
/// once the escrow is the delegate over one unit.
pub open spec fn lock_refusal(
    account: TokenAccount,
    owner: Wallet,
    escrow: Pubkey,
    mint: Pubkey,
) -> Option<CustodyError> {
    if account.delegation_refusal(owner) is Some {
        account.delegation_refusal(owner)
    } else {
        account.approved(escrow, 1).freeze_refusal(escrow, mint)
    }
}

/// A custody account locked under `escrow`: the escrow may move exactly one
/// unit, and nobody else moves any.
pub open spec fn locked(account: TokenAccount, escrow: Pubkey) -> TokenAccount {
    account.approved(escrow, 1).with_lock(true)
}

/// The two requests that lock an account under `escrow`.
pub open spec fn lock_instructions(
    account: TokenAccount,
    owner: Wallet,
    escrow: Pubkey,
    edition: Pubkey,
    mint: Pubkey,
    signer_seeds: SignerSeeds,
) -> Seq<Instruction> {
    seq![
        Instruction::Approve { to: account.key, delegate: escrow, authority: owner.key, amount: 1 },
        Instruction::Freeze {
            delegate: escrow,
            token_account: account.key,
            edition,
            mint,
            signer_seeds,
        },
    ]
}

/// Why the service refuses to unlock `from` and let `escrow` move one unit of
/// it to `to`, if it does.
pub open spec fn release_refusal(
    from: TokenAccount,
    to: TokenAccount,
    escrow: Pubkey,
    mint: Pubkey,
) -> Option<CustodyError> {
    if from.thaw_refusal(escrow, mint) is Some {
        from.thaw_refusal(escrow, mint)
    } else {
        from.with_lock(false).transfer_refusal(to, escrow, 1)
    }
}

/// The account that the asset left: unlocked, one unit less, the delegation
/// spent.
pub open spec fn released(from: TokenAccount) -> TokenAccount {
    from.with_lock(false).debited(1)
}

/// The two requests that unlock `from` and move one unit to `to`.
pub open spec fn release_instructions(
    from: TokenAccount,
    to: TokenAccount,
    escrow: Pubkey,
    edition: Pubkey,
    mint: Pubkey,
    signer_seeds: SignerSeeds,
) -> Seq<Instruction> {
    seq![
        Instruction::Thaw {
            delegate: escrow,
            token_account: from.key,
            edition,
            mint,
            signer_seeds,
        },
        Instruction::Transfer {
            from: from.key,
            to: to.key,
            authority: escrow,
            amount: 1,
            signer_seeds,
        },
    ]
}

/// Locks `account` under `escrow`: its owner grants the escrow authority
/// over exactly one unit, then the escrow freezes the account. Appends the
/// two requests to `log`. Where the service would refuse either, nothing
/// changes.
pub fn lock(
    account: &mut TokenAccount,
    owner: &Wallet,
    escrow: &Pubkey,
    edition: &Pubkey,
    mint: &Pubkey,
    signer_seeds: &SignerSeeds,
    log: &mut Vec<Instruction>,
) -> (r: Result<(), CustodyError>)
    ensures
        match r {
            Ok(()) => {
                &&& lock_refusal(*old(account), *owner, *escrow, *mint) is None
                &&& *final(account) == locked(*old(account), *escrow)
                &&& final(log)@ == old(log)@ + lock_instructions(
                    *old(account),
                    *owner,
                    *escrow,
                    *edition,
                    *mint,
                    *signer_seeds,
                )
            },
            Err(e) => {
                &&& lock_refusal(*old(account), *owner, *escrow, *mint) == Some(e)
                &&& *final(account) == *old(account)
                &&& *final(log) == *old(log)
            },
        },
{
    let before = *account;
    let granted = match account.approve(escrow, owner, 1) {
        Ok(ix) => ix,
        Err(e) => {
            return Err(e);
        },
    };
    match account.freeze(escrow, edition, mint, signer_seeds) {
        Ok(frozen) => {
            log.push(granted);
            log.push(frozen);
            assert(log@ =~= old(log)@ + lock_instructions(
                before,
                *owner,
                *escrow,
                *edition,
                *mint,
                *signer_seeds,
            ));
            Ok(())
        },
        Err(e) => {
            *account = before;
            Err(e)
        },
    }
}

/// Unlocks `from` and moves the one unit that the escrow holds authority
/// over to `to`: the thaw precedes the transfer. Appends the two requests to
/// `log`. Where the service would refuse either, nothing changes.
pub fn release(
    from: &mut TokenAccount,
    to: &mut TokenAccount,
    escrow: &Pubkey,
    edition: &Pubkey,
    mint: &Pubkey,
    signer_seeds: &SignerSeeds,
    log: &mut Vec<Instruction>,
) -> (r: Result<(), CustodyError>)
    ensures
        match r {
            Ok(()) => {
                &&& release_refusal(*old(from), *old(to), *escrow, *mint) is None
                &&& *final(from) == released(*old(from))
                &&& *final(to) == old(to).credited(1)
                &&& final(log)@ == old(log)@ + release_instructions(
                    *old(from),
                    *old(to),
                    *escrow,
                    *edition,
                    *mint,
                    *signer_seeds,
                )
            },
            Err(e) => {
                &&& release_refusal(*old(from), *old(to), *escrow, *mint) == Some(e)
                &&& *final(from) == *old(from)
                &&& *final(to) == *old(to)
                &&& *final(log) == *old(log)
            },
        },
{
    let before = *from;
    let thawed = match from.thaw(escrow, edition, mint, signer_seeds) {
        Ok(ix) => ix,
        Err(e) => {
            return Err(e);
        },
    };
    match from.transfer(to, escrow, 1, signer_seeds) {
        Ok(moved) => {
            log.push(thawed);
            log.push(moved);
            assert(log@ =~= old(log)@ + release_instructions(
                before,
                *old(to),
                *escrow,
                *edition,
                *mint,
                *signer_seeds,
            ));
            Ok(())
        },
        Err(e) => {
            *from = before;
            Err(e)
        },
    }
}


} // verus!
