use tree_guardian::instructions::{validate_mint, validate_transfer};
use tree_guardian::{
    initialize, mint_nft, transfer_nft, ErrorCode, Initialize, MintNft, MintTo, NftMetadata,
    NftMinted, NftTransferred, Pubkey, Transfer, TransferNft, TreeGuardian,
};

fn key(byte: u8) -> Pubkey {
    Pubkey::new_from_array([byte; 32])
}

fn mint_accounts(total_trees: u64) -> MintNft {
    MintNft {
        tree_guardian: TreeGuardian { authority: key(1), total_trees, bump: 254 },
        tree_guardian_key: key(2),
        nft_mint: key(3),
        nft_metadata: NftMetadata::default(),
        nft_metadata_bump: 253,
        nft_token_account: key(4),
        owner: key(5),
    }
}

fn transfer_accounts() -> TransferNft {
    TransferNft {
        nft_metadata: NftMetadata {
            owner: key(5),
            location: "Plot 7".to_string(),
            planting_date: 1_700_000_000,
            tree_id: 42,
            impact_score: 100,
            bump: 253,
        },
        nft_mint: key(3),
        from_token_account: key(4),
        to_token_account: key(6),
        from: key(5),
        to: key(7),
    }
}


#[test]
fn initialize_sets_authority_count_and_bump() {
    let mut ctx = Initialize {
        tree_guardian: TreeGuardian { authority: key(9), total_trees: 77, bump: 1 },
        authority: key(1),
        tree_guardian_bump: 254,
    };
    assert_eq!(initialize(&mut ctx), Ok(()));
    assert_eq!(
        ctx.tree_guardian,
        TreeGuardian { authority: key(1), total_trees: 0, bump: 254 }
    );
    assert_eq!(ctx.authority, key(1));
    assert_eq!(ctx.tree_guardian_bump, 254);
}

#[test]
fn mint_nft_fills_the_record_and_asks_for_one_unit() {
    let mut ctx = mint_accounts(0);
    let (request, event) = mint_nft(&mut ctx, "Plot 7".to_string(), 1_700_000_000).unwrap();
    assert_eq!(ctx.tree_guardian.total_trees, 1);
    assert_eq!(ctx.tree_guardian.authority, key(1));
    assert_eq!(ctx.tree_guardian.bump, 254);
    assert_eq!(
        ctx.nft_metadata,
        NftMetadata {
            owner: key(5),
            location: "Plot 7".to_string(),
            planting_date: 1_700_000_000,
            tree_id: 1,
            impact_score: 100,
            bump: 253,
        }
    );
    assert_eq!(request, MintTo { mint: key(3), to: key(4), authority: key(2), amount: 1 });
    assert_eq!(
        event,
        NftMinted {
            owner: key(5),
            tree_id: 1,
            location: "Plot 7".to_string(),
            planting_date: 1_700_000_000,
        }
    );
}

#[test]
fn mint_nft_numbers_from_the_count_it_finds() {
    let mut ctx = mint_accounts(41);
    let (_, event) = mint_nft(&mut ctx, "Ridge".to_string(), 5).unwrap();
    assert_eq!(event.tree_id, 42);
    assert_eq!(ctx.nft_metadata.tree_id, 42);
    assert_eq!(ctx.tree_guardian.total_trees, 42);
    let mut last = mint_accounts(u64::MAX - 1);
    let (_, event) = mint_nft(&mut last, "Ridge".to_string(), 5).unwrap();
    assert_eq!(event.tree_id, u64::MAX);
    assert_eq!(last.tree_guardian.total_trees, u64::MAX);
}

#[test]
fn mint_nft_refuses_a_long_location_and_changes_nothing() {
    let mut ctx = mint_accounts(3);
    let done = mint_nft(&mut ctx, "x".repeat(51), 1_700_000_000);
    assert_eq!(done, Err(ErrorCode::LocationTooLong));
    assert_eq!(ctx, mint_accounts(3));
}

#[test]
fn mint_nft_accepts_a_location_of_fifty_characters() {
    let mut ctx = mint_accounts(3);
    let (_, event) = mint_nft(&mut ctx, "x".repeat(50), 1_700_000_000).unwrap();
    assert_eq!(event.location, "x".repeat(50));
    assert_eq!(ctx.nft_metadata.location.len(), 50);
    let mut empty = mint_accounts(3);
    assert!(mint_nft(&mut empty, String::new(), 1).is_ok());
}

#[test]
fn mint_nft_refuses_a_date_that_is_not_positive() {
    let mut ctx = mint_accounts(3);
    assert_eq!(mint_nft(&mut ctx, "Plot 7".to_string(), 0), Err(ErrorCode::InvalidDate));
    assert_eq!(mint_nft(&mut ctx, "Plot 7".to_string(), -1), Err(ErrorCode::InvalidDate));
    assert_eq!(mint_nft(&mut ctx, "Plot 7".to_string(), i64::MIN), Err(ErrorCode::InvalidDate));
    assert_eq!(ctx, mint_accounts(3));
    assert!(mint_nft(&mut ctx, "Plot 7".to_string(), 1).is_ok());
    let mut latest = mint_accounts(3);
    assert!(mint_nft(&mut latest, "Plot 7".to_string(), i64::MAX).is_ok());
}

#[test]
fn a_long_location_is_reported_before_a_bad_date() {
    let mut ctx = mint_accounts(3);
    assert_eq!(mint_nft(&mut ctx, "x".repeat(51), 0), Err(ErrorCode::LocationTooLong));
    assert_eq!(validate_mint(&"x".repeat(51), -5), Err(ErrorCode::LocationTooLong));
    assert_eq!(validate_mint(&"x".repeat(50), -5), Err(ErrorCode::InvalidDate));
    assert_eq!(validate_mint(&"x".repeat(50), 5), Ok(()));
}

#[test]
fn a_location_is_measured_in_characters() {
    let fifty = "\u{00e9}".repeat(50);
    assert_eq!(fifty.len(), 100);
    assert_eq!(validate_mint(&fifty, 1), Ok(()));
    let fifty_one = "\u{00e9}".repeat(51);
    assert_eq!(validate_mint(&fifty_one, 1), Err(ErrorCode::LocationTooLong));
}

#[test]
fn transfer_nft_asks_to_move_the_unit() {
    let ctx = transfer_accounts();
    let (request, event) = transfer_nft(&ctx, 1).unwrap();
    assert_eq!(
        request,
        Transfer { mint: key(3), from: key(4), to: key(6), authority: key(5), amount: 1 }
    );
    assert_eq!(event, NftTransferred { from: key(5), to: key(7), tree_id: 42, amount: 1 });
    assert_eq!(ctx, transfer_accounts());
}

#[test]
fn transfer_nft_refuses_any_amount_but_one() {
    let ctx = transfer_accounts();
    assert_eq!(transfer_nft(&ctx, 2), Err(ErrorCode::InvalidAmount));
    assert_eq!(transfer_nft(&ctx, 0), Err(ErrorCode::InvalidAmount));
    assert_eq!(transfer_nft(&ctx, u64::MAX), Err(ErrorCode::InvalidAmount));
    assert_eq!(validate_transfer(2), Err(ErrorCode::InvalidAmount));
    assert_eq!(validate_transfer(0), Err(ErrorCode::InvalidAmount));
    assert_eq!(validate_transfer(1), Ok(()));
}

#[test]
fn errors_describe_themselves() {
    assert_eq!(ErrorCode::LocationTooLong.message(), "Location string is too long");
    assert_eq!(ErrorCode::InvalidDate.message(), "Invalid planting date");
    assert_eq!(ErrorCode::InvalidAmount.message(), "Invalid transfer amount");
}

#[test]
fn blank_records_hold_nothing() {
    let record = NftMetadata::default();
    assert_eq!(record.owner, Pubkey::default());
    assert_eq!(record.location, "");
    assert_eq!(
        (record.planting_date, record.tree_id, record.impact_score, record.bump),
        (0, 0, 0, 0)
    );
    let registry = TreeGuardian::default();
    assert_eq!(
        registry,
        TreeGuardian { authority: Pubkey::default(), total_trees: 0, bump: 0 }
    );
}

#[test]
fn records_and_events_are_copied_whole() {
    let ctx = transfer_accounts();
    assert_eq!(ctx.nft_metadata.clone(), ctx.nft_metadata);
    let event = NftMinted {
        owner: key(5),
        tree_id: 1,
        location: "Plot 7".to_string(),
        planting_date: 1_700_000_000,
    };
    assert_eq!(event.clone(), event);
}
