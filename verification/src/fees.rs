//! Fee distribution: how the fee of a rental is split between the creators
//! of the asset and the lender.

use crate::custody::Instruction;
use crate::error::DexloanError;
use crate::pubkey::Pubkey;
use vstd::prelude::*;

verus! {

/// One entry of the royalty registry: a creator and its share of every fee,
/// in hundredths of a percent.
#[derive(Clone, Copy, Debug, PartialEq, Eq)]
pub struct Royalty {
    pub recipient: Pubkey,
    pub basis_points: u16,
}

/// Basis points that make the whole.
pub const BASIS_POINTS: u64 = 10_000;

impl Royalty {
    /// The entry of a creator who holds `share` percent of a royalty of
    /// `seller_fee_basis_points`, as a registry that keeps percentages gives
    /// it: that part of the royalty, rounded down. Nothing where the share is
    /// more than the whole.
    pub fn from_share(recipient: Pubkey, seller_fee_basis_points: u16, share: u8) -> (entry: Option<
        Royalty,
    >)
        ensures
            match entry {
                Some(entry) => {
                    &&& share <= 100
                    &&& entry.recipient == recipient
                    &&& entry.basis_points == (seller_fee_basis_points * share) / 100
                },
                None => share > 100,
            },
    {
        if share > 100 {
            return None;
        }
        assert(seller_fee_basis_points * share <= 0xffff * 100) by (nonlinear_arith)
            requires
                seller_fee_basis_points <= 0xffff,
                share <= 100,
        ;
        let part: u32 = (seller_fee_basis_points as u32) * (share as u32) / 100;
        Some(Royalty { recipient, basis_points: part as u16 })
    }
}

/// A creator as a registry that keeps percentages names it: who, and which
/// percentage of the royalty.
#[derive(Clone, Copy, Debug, PartialEq, Eq)]
pub struct Creator {
    pub address: Pubkey,
    pub share: u8,
}

/// Whether every creator holds at most the whole royalty.
pub open spec fn shares_valid(creators: Seq<Creator>) -> bool {
    forall|i: int| 0 <= i < creators.len() ==> (#[trigger] creators[i]).share <= 100
}

/// The entry of `creator` where the royalty is `seller_fee_basis_points`: its
/// percentage of the royalty, rounded down.
pub open spec fn share_entry(seller_fee_basis_points: u16, creator: Creator) -> Royalty {
    Royalty {
        recipient: creator.address,
        basis_points: ((seller_fee_basis_points * creator.share) / 100) as u16,
    }
}

/// The entries of `creators`, one for each and in their order.
pub open spec fn share_entries(seller_fee_basis_points: u16, creators: Seq<Creator>) -> Seq<
    Royalty,
> {
    Seq::new(creators.len(), |i: int| share_entry(seller_fee_basis_points, creators[i]))
}

/// Resolves what a registry that keeps percentages holds for an asset: a
/// royalty of `seller_fee_basis_points` and the creators who share it. The
/// lookup fails, so that the lender is paid the whole fee, where any creator
/// holds more than the whole royalty.
pub fn registry_from_shares(seller_fee_basis_points: u16, creators: &Vec<Creator>) -> (registry:
    Option<Vec<Royalty>>)
    ensures
        match registry {
            Some(entries) => {
                &&& shares_valid(creators@)
                &&& entries@ == share_entries(seller_fee_basis_points, creators@)
            },
            None => !shares_valid(creators@),
        },
{
    let mut entries: Vec<Royalty> = Vec::new();
    let mut i: usize = 0;
    while i < creators.len()
        invariant
            i <= creators.len(),
            shares_valid(creators@.take(i as int)),
            entries@ == share_entries(seller_fee_basis_points, creators@.take(i as int)),
        decreases creators.len() - i,
    {
        let creator = creators[i];
        match Royalty::from_share(creator.address, seller_fee_basis_points, creator.share) {
            Some(entry) => {
                entries.push(entry);
            },
            None => {
                assert(creators@[i as int].share > 100);
                return None;
            },
        }
        assert(creators@.take(i + 1)[i as int] == creator);
        assert(forall|j: int| 0 <= j < i ==> creators@.take(i + 1)[j] == creators@.take(i as int)[j]);
        assert(entries@ =~= share_entries(seller_fee_basis_points, creators@.take(i + 1)));
        i += 1;
    }
    assert(creators@.take(i as int) =~= creators@);
    Some(entries)
}

/// What a share of `basis_points` earns of `amount`: the exact share, rounded
/// down.
pub open spec fn royalty_fee(amount: u64, basis_points: u16) -> nat {
    (amount as nat * basis_points as nat) / 10_000
}

/// What the creators in `royalties` earn of `amount` together.
pub open spec fn fees_total(amount: u64, royalties: Seq<Royalty>) -> nat
    decreases royalties.len(),
{
    if royalties.len() == 0 {
        0
    } else {
        fees_total(amount, royalties.drop_last()) + royalty_fee(
            amount,
            royalties.last().basis_points,
        )
    }
}

/// The payments that `payer` owes the creators in `royalties` for a fee of
/// `amount`: one to each, in the registry's order.
pub open spec fn creator_payments(payer: Pubkey, amount: u64, royalties: Seq<Royalty>) -> Seq<
    Instruction,
> {
    Seq::new(
        royalties.len(),
        |i: int|
            Instruction::Pay {
                from: payer,
                to: royalties[i].recipient,
                lamports: royalty_fee(amount, royalties[i].basis_points) as u64,
            },
    )
}

/// All payments for a fee of `amount`: those to the creators, then the rest
/// to the lender in one payment.
pub open spec fn fee_payments(
    payer: Pubkey,
    lender: Pubkey,
    amount: u64,
    royalties: Seq<Royalty>,
) -> Seq<Instruction> {
    creator_payments(payer, amount, royalties).push(
        Instruction::Pay {
            from: payer,
            to: lender,
            lamports: (amount - fees_total(amount, royalties)) as u64,
        },
    )
}

/// The sum of what the payments among `instructions` pay.
pub open spec fn lamports_paid(instructions: Seq<Instruction>) -> nat
    decreases instructions.len(),
{
    if instructions.len() == 0 {
        0
    } else {
        lamports_paid(instructions.drop_last()) + match instructions.last() {
            Instruction::Pay { lamports, .. } => lamports as nat,
            _ => 0,
        }
    }
}

/// The registry's entries, or none where the lookup failed.
pub open spec fn registry_entries(registry: Option<Vec<Royalty>>) -> Seq<Royalty> {
    match registry {
        Some(entries) => entries@,
        None => Seq::empty(),
    }
}

/// Rounding never favours a creator: a share earns at most its exact part
/// of the amount, and less than one unit below it.
pub proof fn lemma_royalty_fee_rounds_down(amount: u64, basis_points: u16)
    ensures
        royalty_fee(amount, basis_points) * 10_000 <= amount as nat * basis_points as nat,
        (amount as nat) * (basis_points as nat) < (royalty_fee(amount, basis_points) + 1) * 10_000,
{
    let product = amount as nat * basis_points as nat;
    assert((product / 10_000) * 10_000 <= product < (product / 10_000 + 1) * 10_000)
        by (nonlinear_arith);
}

/// The shares in `royalties` together, in basis points.
pub open spec fn basis_points_total(royalties: Seq<Royalty>) -> nat
    decreases royalties.len(),
{
    if royalties.len() == 0 {
        0
    } else {
        basis_points_total(royalties.drop_last()) + royalties.last().basis_points as nat
    }
}

/// Rounding favours the lender: the creators together earn at most the exact
/// part of the amount that their shares add up to, so the lender is left with
/// at least the exact rest.
pub proof fn rounding_favours_the_lender(amount: u64, royalties: Seq<Royalty>)
    ensures
        fees_total(amount, royalties) * 10_000 <= amount as nat * basis_points_total(royalties),
    decreases royalties.len(),
{
    if royalties.len() > 0 {
        let shorter = royalties.drop_last();
        let share = royalties.last().basis_points;
        rounding_favours_the_lender(amount, shorter);
        lemma_royalty_fee_rounds_down(amount, share);
        assert(amount as nat * basis_points_total(royalties) == amount as nat
            * basis_points_total(shorter) + amount as nat * share as nat) by (nonlinear_arith)
            requires
                basis_points_total(royalties) == basis_points_total(shorter) + share as nat,
        ;
    }
}

/// What payments pay adds up over lists of instructions put end to end.
pub proof fn lemma_lamports_paid_concat(first: Seq<Instruction>, second: Seq<Instruction>)
    ensures
        lamports_paid(first + second) == lamports_paid(first) + lamports_paid(second),
    decreases second.len(),
{
    if second.len() == 0 {
        assert(first + second =~= first);
    } else {
        lemma_lamports_paid_concat(first, second.drop_last());
        assert((first + second).drop_last() =~= first + second.drop_last());
    }
}

/// The creators of a longer list earn at least what those of its beginning
/// earn.
pub proof fn lemma_fees_total_monotonic(amount: u64, royalties: Seq<Royalty>, n: int)
    requires
        0 <= n <= royalties.len(),
    ensures
        fees_total(amount, royalties.take(n)) <= fees_total(amount, royalties),
    decreases royalties.len(),
{
    if n == royalties.len() {
        assert(royalties.take(n) =~= royalties);
    } else {
        lemma_fees_total_monotonic(amount, royalties.drop_last(), n);
        assert(royalties.drop_last().take(n) =~= royalties.take(n));
    }
}

/// The payments to the creators pay what the creators earn together.
pub proof fn lemma_creator_payments_total(payer: Pubkey, amount: u64, royalties: Seq<Royalty>)
    requires
        fees_total(amount, royalties) <= amount,
    ensures
        lamports_paid(creator_payments(payer, amount, royalties)) == fees_total(amount, royalties),
    decreases royalties.len(),
{
    let payments = creator_payments(payer, amount, royalties);
    if royalties.len() > 0 {
        let shorter = royalties.drop_last();
        lemma_creator_payments_total(payer, amount, shorter);
        assert(payments.drop_last() =~= creator_payments(payer, amount, shorter));
    }
}

/// No value appears or vanishes: what all payments for a fee pay adds up to
/// the fee. Each creator's share is rounded down, so what rounding leaves goes
/// to the lender.
pub proof fn lemma_fee_payments_conserve(
    payer: Pubkey,
    lender: Pubkey,
    amount: u64,
    royalties: Seq<Royalty>,
)
    requires
        fees_total(amount, royalties) <= amount,
    ensures
        lamports_paid(fee_payments(payer, lender, amount, royalties)) == amount,
{
    let payments = fee_payments(payer, lender, amount, royalties);
    lemma_creator_payments_total(payer, amount, royalties);
    assert(payments.drop_last() =~= creator_payments(payer, amount, royalties));
}

/// What a share of `basis_points` earns of `amount`, or nothing if that is
/// more than `limit`.
pub fn creator_fee(amount: u64, basis_points: u16, limit: u64) -> (fee: Option<u64>)
    ensures
        match fee {
            Some(fee) => fee == royalty_fee(amount, basis_points) && fee <= limit,
            None => royalty_fee(amount, basis_points) > limit,
        },
{
    assert(amount as nat * basis_points as nat <= 0xffff_ffff_ffff_ffff * 0xffff)
        by (nonlinear_arith);
    let product: u128 = (amount as u128) * (basis_points as u128);
    let fee: u128 = product / (BASIS_POINTS as u128);
    if fee > limit as u128 {
        None
    } else {
        Some(fee as u64)
    }
}

/// Computes the payments that `payer` owes the creators in `royalties` for a
/// fee of `amount`, and what is left of the fee for the lender. Fails, paying
/// nobody, where the creators would earn more than the fee.
pub fn pay_creator_fees(payer: &Pubkey, amount: u64, royalties: &Vec<Royalty>) -> (r: Result<
    (Vec<Instruction>, u64),
    DexloanError,
>)
    ensures
        match r {
            Ok((payments, remaining)) => {
                &&& fees_total(amount, royalties@) <= amount
                &&& payments@ == creator_payments(*payer, amount, royalties@)
                &&& remaining == amount - fees_total(amount, royalties@)
            },
            Err(e) => e == DexloanError::NumericalOverflow && fees_total(amount, royalties@)
                > amount,
        },
{
    let mut payments: Vec<Instruction> = Vec::new();
    let mut remaining: u64 = amount;
    let mut i: usize = 0;
    assert(royalties@.take(0) =~= Seq::<Royalty>::empty());
    while i < royalties.len()
        invariant
            i <= royalties.len(),
            fees_total(amount, royalties@.take(i as int)) <= amount,
            remaining == amount - fees_total(amount, royalties@.take(i as int)),
            payments@ == creator_payments(*payer, amount, royalties@.take(i as int)),
        decreases royalties.len() - i,
    {
        let entry = royalties[i];
        proof {
            let next = royalties@.take(i + 1);
            assert(next.drop_last() =~= royalties@.take(i as int));
            assert(next.last() == entry);
            lemma_fees_total_monotonic(amount, royalties@, i + 1);
        }
        match creator_fee(amount, entry.basis_points, remaining) {
            None => {
                return Err(DexloanError::NumericalOverflow);
            },
            Some(fee) => {
                remaining = remaining - fee;
                payments.push(Instruction::Pay { from: *payer, to: entry.recipient, lamports: fee });
                assert(payments@ =~= creator_payments(*payer, amount, royalties@.take(i + 1)));
            },
        }
        i += 1;
    }
    assert(royalties@.take(i as int) =~= royalties@);
    Ok((payments, remaining))
}

} // verus!
