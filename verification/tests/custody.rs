use dexloan_listings::accounts::Wallet;
use dexloan_listings::custody::{lock, release, Instruction, TokenAccount};
use dexloan_listings::error::{CustodyError, DexloanError};
use dexloan_listings::fees::{
    creator_fee, pay_creator_fees, registry_from_shares, Creator, Royalty,
};
use dexloan_listings::pubkey::Pubkey;
use dexloan_listings::state::hire::SignerSeeds;

fn id(n: u8) -> Pubkey {
    Pubkey::new_from_array([n; 32])
}

fn owner() -> Wallet {
    Wallet { key: id(2), is_signer: true }
}

fn path() -> SignerSeeds {
    SignerSeeds { mint: id(1), lender: id(2), bump: 255 }
}

fn account(n: u8) -> TokenAccount {
    TokenAccount {
        key: id(n),
        mint: id(1),
        owner: id(2),
        amount: 1,
        delegate: None,
        delegated_amount: 0,
        frozen: false,
    }
}

fn delegated(n: u8, units: u64) -> TokenAccount {
    TokenAccount { delegate: Some(id(50)), delegated_amount: units, ..account(n) }
}

#[test]
fn approve_sets_the_delegation() {
    let mut a = account(10);
    let ix = a.approve(&id(50), &owner(), 1).unwrap();
    assert_eq!(ix, Instruction::Approve { to: id(10), delegate: id(50), authority: id(2), amount: 1 });
    assert_eq!(a, delegated(10, 1));
    assert!(a.is_delegate(&id(50)));
    assert!(!a.is_delegate(&id(51)));
    assert!(!account(10).is_delegate(&id(50)));
}

#[test]
fn approve_and_revoke_check_lock_owner_and_signature() {
    let mut frozen = TokenAccount { frozen: true, ..account(10) };
    assert_eq!(frozen.approve(&id(50), &owner(), 1), Err(CustodyError::AccountFrozen));
    assert_eq!(frozen.revoke(&owner()), Err(CustodyError::AccountFrozen));
    assert_eq!(frozen, TokenAccount { frozen: true, ..account(10) });

    let stranger = Wallet { key: id(3), is_signer: true };
    let mut a = delegated(10, 1);
    assert_eq!(a.approve(&id(51), &stranger, 1), Err(CustodyError::OwnerMismatch));
    assert_eq!(a.revoke(&stranger), Err(CustodyError::OwnerMismatch));

    let silent = Wallet { key: id(2), is_signer: false };
    assert_eq!(a.approve(&id(51), &silent, 1), Err(CustodyError::MissingSignature));
    assert_eq!(a.revoke(&silent), Err(CustodyError::MissingSignature));
    assert_eq!(a, delegated(10, 1));
}

#[test]
fn revoke_clears_the_delegation() {
    let mut a = delegated(10, 1);
    let ix = a.revoke(&owner()).unwrap();
    assert_eq!(ix, Instruction::Revoke { source: id(10), authority: id(2) });
    assert_eq!(a, account(10));
    assert!(a.revoke(&owner()).is_ok());
    assert_eq!(a, account(10));
}

#[test]
fn freeze_and_thaw_set_the_lock() {
    let mut a = delegated(10, 1);
    let ix = a.freeze(&id(50), &id(5), &id(1), &path()).unwrap();
    assert_eq!(
        ix,
        Instruction::Freeze {
            delegate: id(50),
            token_account: id(10),
            edition: id(5),
            mint: id(1),
            signer_seeds: path(),
        }
    );
    assert_eq!(a, TokenAccount { frozen: true, ..delegated(10, 1) });
    assert_eq!(a.freeze(&id(50), &id(5), &id(1), &path()), Err(CustodyError::AccountFrozen));
    let ix = a.thaw(&id(50), &id(5), &id(1), &path()).unwrap();
    assert_eq!(
        ix,
        Instruction::Thaw {
            delegate: id(50),
            token_account: id(10),
            edition: id(5),
            mint: id(1),
            signer_seeds: path(),
        }
    );
    assert_eq!(a, delegated(10, 1));
    assert_eq!(a.thaw(&id(50), &id(5), &id(1), &path()), Err(CustodyError::AccountNotFrozen));
}

#[test]
fn freeze_and_thaw_are_for_the_delegate_and_the_asset() {
    let mut a = delegated(10, 1);
    assert_eq!(a.freeze(&id(51), &id(5), &id(1), &path()), Err(CustodyError::InvalidDelegate));
    assert_eq!(a.freeze(&id(50), &id(5), &id(9), &path()), Err(CustodyError::MintMismatch));
    let mut plain = account(10);
    assert_eq!(plain.freeze(&id(50), &id(5), &id(1), &path()), Err(CustodyError::InvalidDelegate));
    let mut empty = TokenAccount { amount: 0, ..delegated(10, 0) };
    assert_eq!(empty.freeze(&id(50), &id(5), &id(1), &path()), Err(CustodyError::InsufficientFunds));
    let mut partly = TokenAccount { amount: 3, ..delegated(10, 2) };
    assert_eq!(partly.freeze(&id(50), &id(5), &id(1), &path()), Err(CustodyError::InvalidDelegate));
    assert_eq!(partly.check_delegate(&id(50), &id(1)), Err(CustodyError::InvalidDelegate));
    assert_eq!(delegated(10, 1).check_delegate(&id(50), &id(1)), Ok(()));
    let mut locked = TokenAccount { frozen: true, ..delegated(10, 1) };
    assert_eq!(locked.thaw(&id(51), &id(5), &id(1), &path()), Err(CustodyError::InvalidDelegate));
    assert_eq!(locked.thaw(&id(50), &id(5), &id(9), &path()), Err(CustodyError::MintMismatch));
    assert_eq!(locked, TokenAccount { frozen: true, ..delegated(10, 1) });
}

#[test]
fn transfer_moves_units_and_spends_the_delegation() {
    let mut from = TokenAccount { amount: 5, ..delegated(10, 3) };
    let mut to = TokenAccount { amount: 7, ..account(11) };
    let ix = from.transfer(&mut to, &id(50), 2, &path()).unwrap();
    assert_eq!(
        ix,
        Instruction::Transfer {
            from: id(10),
            to: id(11),
            authority: id(50),
            amount: 2,
            signer_seeds: path(),
        }
    );
    assert_eq!(from, TokenAccount { amount: 3, ..delegated(10, 1) });
    assert_eq!(to, TokenAccount { amount: 9, ..account(11) });
    from.transfer(&mut to, &id(50), 1, &path()).unwrap();
    assert_eq!(from, TokenAccount { amount: 2, ..account(10) });
    assert_eq!(to, TokenAccount { amount: 10, ..account(11) });
    assert_eq!(from.transfer(&mut to, &id(50), 1, &path()), Err(CustodyError::InvalidDelegate));
}

#[test]
fn transfer_refusals() {
    let mut from = delegated(10, 1);
    let mut same = account(10);
    assert_eq!(from.transfer(&mut same, &id(50), 1, &path()), Err(CustodyError::SameAccount));
    let mut frozen = TokenAccount { frozen: true, ..account(11) };
    assert_eq!(from.transfer(&mut frozen, &id(50), 1, &path()), Err(CustodyError::AccountFrozen));
    let mut to = account(11);
    assert_eq!(from.transfer(&mut to, &id(50), 2, &path()), Err(CustodyError::InsufficientFunds));
    let mut other = TokenAccount { mint: id(9), ..account(11) };
    assert_eq!(from.transfer(&mut other, &id(50), 1, &path()), Err(CustodyError::MintMismatch));
    assert_eq!(from.transfer(&mut to, &id(51), 1, &path()), Err(CustodyError::InvalidDelegate));
    let mut full = TokenAccount { amount: u64::MAX, ..account(11) };
    assert_eq!(from.transfer(&mut full, &id(50), 1, &path()), Err(CustodyError::Overflow));
    let mut locked = TokenAccount { frozen: true, ..delegated(10, 1) };
    assert_eq!(locked.transfer(&mut to, &id(50), 1, &path()), Err(CustodyError::AccountFrozen));
    assert_eq!(from, delegated(10, 1));
    assert_eq!(to, account(11));
}

#[test]
fn lock_approves_one_unit_then_freezes() {
    let mut a = account(10);
    let mut log = vec![Instruction::Pay { from: id(3), to: id(2), lamports: 9 }];
    lock(&mut a, &owner(), &id(50), &id(5), &id(1), &path(), &mut log).unwrap();
    assert_eq!(a, TokenAccount { frozen: true, ..delegated(10, 1) });
    assert_eq!(log.len(), 3);
    assert_eq!(log[1], Instruction::Approve { to: id(10), delegate: id(50), authority: id(2), amount: 1 });
    assert_eq!(
        log[2],
        Instruction::Freeze {
            delegate: id(50),
            token_account: id(10),
            edition: id(5),
            mint: id(1),
            signer_seeds: path(),
        }
    );
}

#[test]
fn lock_that_fails_changes_nothing() {
    let mut a = account(10);
    let mut log = Vec::new();
    let r = lock(&mut a, &owner(), &id(50), &id(5), &id(9), &path(), &mut log);
    assert_eq!(r, Err(CustodyError::MintMismatch));
    assert_eq!(a, account(10));
    assert!(log.is_empty());
    let stranger = Wallet { key: id(3), is_signer: true };
    let r = lock(&mut a, &stranger, &id(50), &id(5), &id(1), &path(), &mut log);
    assert_eq!(r, Err(CustodyError::OwnerMismatch));
    assert_eq!(a, account(10));
    let mut two = TokenAccount { amount: 2, ..account(10) };
    let r = lock(&mut two, &owner(), &id(50), &id(5), &id(1), &path(), &mut log);
    assert_eq!(r, Err(CustodyError::InvalidDelegate));
    assert_eq!(two, TokenAccount { amount: 2, ..account(10) });
    assert!(log.is_empty());
}

#[test]
fn release_thaws_then_moves_one_unit() {
    let mut from = TokenAccount { frozen: true, ..delegated(10, 1) };
    let mut to = TokenAccount { amount: 0, ..account(11) };
    let mut log = Vec::new();
    release(&mut from, &mut to, &id(50), &id(5), &id(1), &path(), &mut log).unwrap();
    assert_eq!(from, TokenAccount { amount: 0, ..account(10) });
    assert_eq!(to, account(11));
    assert_eq!(
        log,
        vec![
            Instruction::Thaw {
                delegate: id(50),
                token_account: id(10),
                edition: id(5),
                mint: id(1),
                signer_seeds: path(),
            },
            Instruction::Transfer {
                from: id(10),
                to: id(11),
                authority: id(50),
                amount: 1,
                signer_seeds: path(),
            },
        ]
    );
}

#[test]
fn release_that_fails_changes_nothing() {
    let mut from = TokenAccount { frozen: true, ..delegated(10, 1) };
    let mut to = TokenAccount { frozen: true, ..account(11) };
    let mut log = Vec::new();
    let r = release(&mut from, &mut to, &id(50), &id(5), &id(1), &path(), &mut log);
    assert_eq!(r, Err(CustodyError::AccountFrozen));
    assert_eq!(from, TokenAccount { frozen: true, ..delegated(10, 1) });
    assert_eq!(to, TokenAccount { frozen: true, ..account(11) });
    assert!(log.is_empty());
}

#[test]
fn creator_fee_is_the_share_rounded_down() {
    assert_eq!(creator_fee(100, 500, 100), Some(5));
    assert_eq!(creator_fee(199, 50, 199), Some(0));
    assert_eq!(creator_fee(200, 50, 200), Some(1));
    assert_eq!(creator_fee(9_999, 10_000, 9_999), Some(9_999));
    assert_eq!(creator_fee(0, 10_000, 0), Some(0));
    assert_eq!(creator_fee(100, 500, 5), Some(5));
    assert_eq!(creator_fee(100, 500, 4), None);
    assert_eq!(creator_fee(u64::MAX, u16::MAX, u64::MAX), None);
    assert_eq!(creator_fee(u64::MAX, 10_000, u64::MAX), Some(u64::MAX));
}

#[test]
fn royalty_from_share_is_a_part_of_the_royalty() {
    assert_eq!(
        Royalty::from_share(id(4), 500, 100),
        Some(Royalty { recipient: id(4), basis_points: 500 })
    );
    assert_eq!(
        Royalty::from_share(id(4), 555, 50),
        Some(Royalty { recipient: id(4), basis_points: 277 })
    );
    assert_eq!(
        Royalty::from_share(id(4), u16::MAX, 0),
        Some(Royalty { recipient: id(4), basis_points: 0 })
    );
    assert_eq!(
        Royalty::from_share(id(4), u16::MAX, 100),
        Some(Royalty { recipient: id(4), basis_points: u16::MAX })
    );
    assert_eq!(Royalty::from_share(id(4), 500, 101), None);
}

#[test]
fn registry_from_shares_gives_each_creator_its_part() {
    let creators = vec![
        Creator { address: id(4), share: 70 },
        Creator { address: id(6), share: 30 },
        Creator { address: id(7), share: 0 },
    ];
    assert_eq!(
        registry_from_shares(555, &creators),
        Some(vec![
            Royalty { recipient: id(4), basis_points: 388 },
            Royalty { recipient: id(6), basis_points: 166 },
            Royalty { recipient: id(7), basis_points: 0 },
        ])
    );
    assert_eq!(registry_from_shares(555, &Vec::new()), Some(Vec::new()));
}

#[test]
fn registry_from_shares_fails_on_a_share_above_the_whole() {
    let creators = vec![
        Creator { address: id(4), share: 100 },
        Creator { address: id(6), share: 101 },
        Creator { address: id(7), share: 10 },
    ];
    assert_eq!(registry_from_shares(500, &creators), None);
    assert_eq!(
        registry_from_shares(500, &creators[..1].to_vec()),
        Some(vec![Royalty { recipient: id(4), basis_points: 500 }])
    );
}

#[test]
fn pay_creator_fees_pays_each_and_returns_the_rest() {
    let registry = vec![
        Royalty { recipient: id(4), basis_points: 500 },
        Royalty { recipient: id(6), basis_points: 250 },
    ];
    let (payments, rest) = pay_creator_fees(&id(3), 1_000, &registry).unwrap();
    assert_eq!(
        payments,
        vec![
            Instruction::Pay { from: id(3), to: id(4), lamports: 50 },
            Instruction::Pay { from: id(3), to: id(6), lamports: 25 },
        ]
    );
    assert_eq!(rest, 925);
    assert_eq!(pay_creator_fees(&id(3), 1_000, &Vec::new()), Ok((Vec::new(), 1_000)));
}

#[test]
fn pay_creator_fees_refuses_more_than_the_amount() {
    let registry = vec![
        Royalty { recipient: id(4), basis_points: 10_000 },
        Royalty { recipient: id(6), basis_points: 1 },
    ];
    assert!(pay_creator_fees(&id(3), 9_999, &registry).is_ok());
    assert_eq!(pay_creator_fees(&id(3), 10_000, &registry), Err(DexloanError::NumericalOverflow));
}
