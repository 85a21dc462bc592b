use mplxcore_gateway::address::{Address, CORE_PROGRAM_BYTES};
use mplxcore_gateway::derivation::{derive_address, SignerSeeds, AUTHORITY_SEED};
use mplxcore_gateway::state::AuthorityAccount;

use anchor_lang::prelude::Pubkey;

fn addr(fill: u8) -> Address {
    Address { bytes: [fill; 32] }
}

#[test]
fn addresses_compare_by_their_bytes() {
    let a = addr(1);
    let mut other = [1u8; 32];
    assert_eq!(a, Address { bytes: other });
    other[31] = 2;
    assert_ne!(a, Address { bytes: other });
    other[31] = 1;
    other[0] = 0;
    assert_ne!(a, Address { bytes: other });
}

#[test]
fn core_program_bytes_are_the_published_identity() {
    assert_eq!(CORE_PROGRAM_BYTES, mpl_core::ID.to_bytes());
    assert_eq!(mpl_core::ID.to_string(), "CoREENxT6tW1HoK8ypY1SxRMZTcVPm7R94rH4PZNhX7d");
}

#[test]
fn authority_seed_spells_its_name() {
    assert_eq!(&AUTHORITY_SEED[..], &b"collection_authority"[..]);
}

#[test]
fn seed_path_is_prefix_collection_bump() {
    let seeds = SignerSeeds { collection: addr(9), bump: 254 };
    let path = seeds.to_vec();
    assert_eq!(path.len(), 3);
    assert_eq!(path[0], b"collection_authority".to_vec());
    assert_eq!(path[1], vec![9u8; 32]);
    assert_eq!(path[2], vec![254u8]);
}

#[test]
fn signer_address_is_what_the_chain_derives() {
    let program = addr(7);
    let collection = addr(9);
    let chain_program = Pubkey::new_from_array(program.bytes);
    let mut some = 0;
    let mut none = 0;
    for bump in 0..=255u8 {
        let seeds = SignerSeeds { collection, bump };
        let expected = Pubkey::create_program_address(
            &[b"collection_authority", &collection.bytes, &[bump]],
            &chain_program,
        )
        .ok()
        .map(|k| Address { bytes: k.to_bytes() });
        let derived = seeds.signer_address(&program);
        assert_eq!(derived, expected);
        match derived {
            Some(address) => {
                some += 1;
                assert!(seeds.signs_for(&program, &address));
                assert!(!seeds.signs_for(&program, &collection));
                assert_ne!(address, program);
                assert_ne!(address, collection);
            }
            None => {
                none += 1;
                assert!(!seeds.signs_for(&program, &collection));
            }
        }
    }
    assert!(some > 0);
    assert!(none > 0);
}

#[test]
fn signer_address_depends_on_program_and_collection() {
    let (a, bump) = derive_address(&addr(9), &addr(7)).unwrap();
    let (b, _) = derive_address(&addr(9), &addr(8)).unwrap();
    let (c, _) = derive_address(&addr(10), &addr(7)).unwrap();
    assert_ne!(a, b);
    assert_ne!(a, c);
    assert!(bump >= 1);
    let seeds = SignerSeeds { collection: addr(9), bump };
    assert_eq!(seeds.signer_address(&addr(7)), Some(a));
    assert_ne!(seeds.signer_address(&addr(8)), Some(a));
}

#[test]
fn derive_address_agrees_with_the_chain() {
    for fill in 0..40u8 {
        let program = addr(fill.wrapping_mul(7).wrapping_add(3));
        let collection = addr(fill);
        let expected = Pubkey::try_find_program_address(
            &[b"collection_authority", &collection.bytes],
            &Pubkey::new_from_array(program.bytes),
        )
        .map(|(k, b)| (Address { bytes: k.to_bytes() }, b));
        assert_eq!(derive_address(&collection, &program), expected);
    }
}

#[test]
fn derive_address_takes_the_greatest_bump() {
    let program = addr(7);
    let mut seen_lower = false;
    for fill in 0..60u8 {
        let collection = addr(fill);
        let (address, bump) = derive_address(&collection, &program).unwrap();
        assert!(bump >= 1);
        assert_eq!(SignerSeeds { collection, bump }.signer_address(&program), Some(address));
        let mut above = bump;
        while above < 255 {
            above += 1;
            assert_eq!(SignerSeeds { collection, bump: above }.signer_address(&program), None);
        }
        if bump < 255 {
            seen_lower = true;
        }
    }
    assert!(seen_lower);
}

#[test]
fn created_record_rederives_to_its_own_address() {
    let program = addr(7);
    let collection = addr(21);
    let creator = addr(22);
    let account = AuthorityAccount::create(&collection, &creator, &program).unwrap();
    assert_eq!(account.record.collection, collection);
    assert_eq!(account.record.creator, creator);
    let (address, bump) = derive_address(&collection, &program).unwrap();
    assert_eq!(account.address, address);
    assert_eq!(account.record.bump, bump);
    assert_eq!(account.rederive(&program), Some(account.address));
}

#[test]
fn record_with_another_bump_does_not_rederive() {
    let program = addr(7);
    let account = AuthorityAccount::create(&addr(21), &addr(22), &program).unwrap();
    let mut wrong = account;
    wrong.record.bump = account.record.bump.wrapping_sub(1);
    assert_ne!(wrong.rederive(&program), Some(wrong.address));
    let mut moved = account;
    moved.record.collection = addr(23);
    assert_ne!(moved.rederive(&program), Some(moved.address));
    assert_ne!(account.rederive(&addr(8)), Some(account.address));
}

#[test]
fn one_collection_has_one_record() {
    let program = addr(7);
    let first = AuthorityAccount::create(&addr(21), &addr(22), &program).unwrap();
    let second = AuthorityAccount::create(&addr(21), &addr(30), &program).unwrap();
    assert_eq!(first.address, second.address);
    assert_eq!(first.record.bump, second.record.bump);
    let third = AuthorityAccount::create(&addr(24), &addr(22), &program).unwrap();
    assert_ne!(first.address, third.address);
}
