use std::str::FromStr;

use tree_guardian::address::{id, metadata_address, registry_address};
use tree_guardian::Pubkey;

fn outside(key: &Pubkey) -> anchor_lang::prelude::Pubkey {
    anchor_lang::prelude::Pubkey::new_from_array(key.to_bytes())
}

#[test]
fn id_is_the_declared_program() {
    let declared =
        anchor_lang::prelude::Pubkey::from_str("7qWiT8orEzgLHDz3BkWFon5PgZScny7gSAHZKAuALRN7")
            .unwrap();
    assert_eq!(id().to_bytes(), declared.to_bytes());
}

#[test]
fn registry_address_is_the_program_derived_address() {
    let program = id();
    let (expected, expected_bump) =
        anchor_lang::prelude::Pubkey::find_program_address(&[b"tree_guardian"], &outside(&program));
    let (address, bump) = registry_address(&program).unwrap();
    assert_eq!(address.to_bytes(), expected.to_bytes());
    assert_eq!(bump, expected_bump);
    assert_ne!(address, program);
}

#[test]
fn registry_address_is_off_the_curve_and_rebuilt_from_its_bump() {
    let program = id();
    let (address, bump) = registry_address(&program).unwrap();
    assert!(!outside(&address).is_on_curve());
    let rebuilt = anchor_lang::prelude::Pubkey::create_program_address(
        &[b"tree_guardian", &[bump]],
        &outside(&program),
    )
    .unwrap();
    assert_eq!(rebuilt.to_bytes(), address.to_bytes());
}

#[test]
fn metadata_address_is_the_program_derived_address() {
    let program = id();
    let mint = Pubkey::new_from_array([7u8; 32]);
    let (expected, expected_bump) = anchor_lang::prelude::Pubkey::find_program_address(
        &[b"nft_metadata", outside(&mint).as_ref()],
        &outside(&program),
    );
    let (address, bump) = metadata_address(&program, &mint).unwrap();
    assert_eq!(address.to_bytes(), expected.to_bytes());
    assert_eq!(bump, expected_bump);
    assert_ne!(address, mint);
}

#[test]
fn same_seeds_give_the_same_address() {
    let program = id();
    let mint = Pubkey::new_from_array([9u8; 32]);
    assert_eq!(registry_address(&program), registry_address(&program));
    assert_eq!(metadata_address(&program, &mint), metadata_address(&program, &mint));
}

#[test]
fn different_assets_and_programs_give_different_addresses() {
    let program = id();
    let other_program = Pubkey::new_from_array([3u8; 32]);
    let first = Pubkey::new_from_array([1u8; 32]);
    let second = Pubkey::new_from_array([2u8; 32]);
    let at_first = metadata_address(&program, &first).unwrap().0;
    let at_second = metadata_address(&program, &second).unwrap().0;
    assert_ne!(at_first, at_second);
    assert_ne!(at_first, registry_address(&program).unwrap().0);
    assert_ne!(
        registry_address(&program).unwrap().0,
        registry_address(&other_program).unwrap().0
    );
}

#[test]
fn keys_compare_by_their_bytes() {
    let mut bytes = [0u8; 32];
    assert_eq!(Pubkey::new_from_array(bytes), Pubkey::default());
    bytes[31] = 1;
    let last = Pubkey::new_from_array(bytes);
    assert_ne!(last, Pubkey::default());
    assert_eq!(last, Pubkey::new_from_array(bytes));
    assert_eq!(last.to_bytes(), bytes);
    bytes[31] = 0;
    bytes[0] = 1;
    assert_ne!(Pubkey::new_from_array(bytes), last);
}

#[test]
fn seeds_spell_their_names() {
    assert_eq!(&tree_guardian::address::REGISTRY_SEED, b"tree_guardian");
    assert_eq!(&tree_guardian::address::METADATA_SEED, b"nft_metadata");
}
