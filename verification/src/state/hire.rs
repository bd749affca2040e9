use crate::address::hire_seeds;
use crate::pubkey::Pubkey;
use crate::state::collection::DISCRIMINATOR_LEN;
use vstd::prelude::*;

verus! {

/// Where a hire record stands in its life. A record that does not exist is
/// closed.
#[derive(Clone, Copy, Debug, PartialEq, Eq, Structural)]
pub enum HireState {
    /// Offered; the asset is locked in the lender's own custody account.
    Listed,
    /// Taken; the asset is locked in the rental custody account.
    Hired,
}

/// The record of one rental: one per asset and lender.
#[derive(Clone, Copy, Debug, PartialEq, Eq)]
pub struct Hire {
    /// Current state of the rental.
    pub state: HireState,
    /// Fee of the rental, in the base currency unit.
    pub amount: u64,
    /// Who took the asset, or who alone may take it.
    pub borrower: Option<Pubkey>,
    /// Owner who listed the asset.
    pub lender: Pubkey,
    /// Time after which the term is over.
    pub expiry: i64,
    /// Funds held for the lender.
    pub escrow_balance: u64,
    /// The asset.
    pub mint: Pubkey,
    /// Bump seed that completes the derivation of the record's address.
    pub bump: u8,
}

/// The path by which the escrow proves its authority over the record of
/// `mint` and `lender`: the custody service derives an address from it and
/// compares.
#[derive(Clone, Copy, Debug, PartialEq, Eq)]
pub struct SignerSeeds {
    pub mint: Pubkey,
    pub lender: Pubkey,
    pub bump: u8,
}

impl SignerSeeds {
    /// The seeds as the custody service receives them: those of the record's
    /// address, then the bump seed as one byte.
    pub open spec fn seeds(self) -> Seq<Seq<u8>> {
        hire_seeds(self.mint@, self.lender@).push(seq![self.bump])
    }

    /// Builds the seeds for a call made as the escrow.
    pub fn to_seeds(&self) -> (seeds: Vec<Vec<u8>>)
        ensures
            seeds.deep_view() == self.seeds(),
    {
        let mut seeds = crate::address::build_hire_seeds(&self.mint, &self.lender);
        let mut bump: Vec<u8> = Vec::new();
        bump.push(self.bump);
        seeds.push(bump);
        assert(seeds.deep_view() =~= self.seeds()) by {
            let before = hire_seeds(self.mint@, self.lender@);
            assert(forall|i: int| 0 <= i < 3 ==> seeds.deep_view()[i] == before[i]);
            assert(seeds.deep_view()[3] =~= seq![self.bump]);
        }
        seeds
    }
}

impl Hire {
    /// Namespace tag under which hire records are addressed: the bytes of
    /// `hire`.
    pub const PREFIX: [u8; 4] = [104, 105, 114, 101];

    /// Bytes that one stored record occupies: the header, then each field
    /// at its fixed size.
    pub fn space() -> (n: usize)
        ensures
            n == 131,
            n == DISCRIMINATOR_LEN + 1 + 8 + (1 + 32) + 32 + 8 + 8 + 32 + 1,
    {
        DISCRIMINATOR_LEN + 1 + 8 + (1 + 32) + 32 + 8 + 8 + 32 + 1
    }

    /// The invariant of a record: a hired record names its borrower, and so
    /// does a record without a fee. A listing establishes it, and every
    /// transition keeps it.
    pub open spec fn well_formed(&self) -> bool {
        &&& self.state == HireState::Hired ==> self.borrower is Some
        &&& self.amount == 0 ==> self.borrower is Some
    }

    /// The derivation path of this record.
    pub open spec fn spec_signer_seeds(&self) -> SignerSeeds {
        SignerSeeds { mint: self.mint, lender: self.lender, bump: self.bump }
    }

    /// The derivation path that the escrow presents when it acts for this
    /// record.
    #[verifier::when_used_as_spec(spec_signer_seeds)]
    pub fn signer_seeds(&self) -> (path: SignerSeeds)
        ensures
            path == self.spec_signer_seeds(),
    {
        SignerSeeds { mint: self.mint, lender: self.lender, bump: self.bump }
    }
}

} // verus!
