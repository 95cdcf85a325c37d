//! The three operations of the registry, each on the records it is handed.
//!
//! An operation reads and writes the records in its accounts and answers with
//! what is left to do on the ledger and with the notification to emit. It does
//! not reach the ledger itself: whoever runs it carries the request out and
//! drops every change if the ledger refuses.

use vstd::prelude::*;
use crate::error::ErrorCode;
use crate::pubkey::Pubkey;
use crate::state::{
    MintTo, NftMetadata, NftMinted, NftTransferred, Transfer, TreeGuardian, BASE_IMPACT_SCORE,
    MAX_LOCATION_LEN,
};

verus! {

/// The accounts of [`initialize`].
#[derive(Clone, Copy, Debug, PartialEq, Eq)]
pub struct Initialize {
    /// The registry record that is being created.
    pub tree_guardian: TreeGuardian,
    /// Who creates the registry and controls it from then on.
    pub authority: Pubkey,
    /// The bump of the registry's address.
    pub tree_guardian_bump: u8,
}

/// The accounts of [`mint_nft`].
#[derive(Debug, PartialEq, Eq)]
pub struct MintNft {
    /// The registry record.
    pub tree_guardian: TreeGuardian,
    /// The address of the registry record. The registry is the authority
    /// under which the asset is minted.
    pub tree_guardian_key: Pubkey,
    /// The asset that is being created for the certificate.
    pub nft_mint: Pubkey,
    /// The certificate record that is being created.
    pub nft_metadata: NftMetadata,
    /// The bump of the certificate record's address.
    pub nft_metadata_bump: u8,
    /// The account in which the owner will hold the asset.
    pub nft_token_account: Pubkey,
    /// Who receives the certificate.
    pub owner: Pubkey,
}

/// The accounts of [`transfer_nft`].
#[derive(Debug, PartialEq, Eq)]
pub struct TransferNft {
    /// The record of the certificate whose asset moves.
    pub nft_metadata: NftMetadata,
    /// The asset that moves.
    pub nft_mint: Pubkey,
    /// The account the asset leaves.
    pub from_token_account: Pubkey,
    /// The account the asset enters.
    pub to_token_account: Pubkey,
    /// Who gives the asset away, and signs for it.
    pub from: Pubkey,
    /// Who receives the asset.
    pub to: Pubkey,
}

/// The rule a location and a planting date break, if they break one. A
/// location that is too long is reported before a date that is not positive.
pub open spec fn mint_args_error(location: Seq<char>, planting_date: i64) -> Option<ErrorCode> {
    if location.len() > MAX_LOCATION_LEN {
        Some(ErrorCode::LocationTooLong)
    } else if planting_date <= 0 {
        Some(ErrorCode::InvalidDate)
    } else {
        None
    }
}

/// The rule an amount to transfer breaks, if it breaks one: only single units
/// move.
pub open spec fn transfer_args_error(amount: u64) -> Option<ErrorCode> {
    if amount != 1 {
        Some(ErrorCode::InvalidAmount)
    } else {
        None
    }
}

/// The certificate record that [`mint_nft`] writes.
pub open spec fn minted_metadata(accounts: MintNft, location: String, planting_date: i64)
    -> NftMetadata {
    NftMetadata {
        owner: accounts.owner,
        location,
        planting_date,
        tree_id: accounts.tree_guardian.spec_advanced().total_trees,
        impact_score: BASE_IMPACT_SCORE,
        bump: accounts.nft_metadata_bump,
    }
}

/// The accounts as [`mint_nft`] leaves them when it succeeds.
pub open spec fn minted_accounts(accounts: MintNft, location: String, planting_date: i64)
    -> MintNft {
    MintNft {
        tree_guardian: accounts.tree_guardian.spec_advanced(),
        nft_metadata: minted_metadata(accounts, location, planting_date),
        ..accounts
    }
}

/// What [`mint_nft`] asks of the ledger: one unit of the new asset, credited
/// to the owner's account under the authority of the registry.
pub open spec fn mint_request(accounts: MintNft) -> MintTo {
    MintTo {
        mint: accounts.nft_mint,
        to: accounts.nft_token_account,
        authority: accounts.tree_guardian_key,
        amount: 1,
    }
}

/// The notification of a successful [`mint_nft`].
pub open spec fn minted_event(accounts: MintNft, location: String, planting_date: i64)
    -> NftMinted {
    NftMinted {
        owner: accounts.owner,
        tree_id: accounts.tree_guardian.spec_advanced().total_trees,
        location,
        planting_date,
    }
}

/// What [`transfer_nft`] asks of the ledger.
pub open spec fn transfer_request(accounts: TransferNft, amount: u64) -> Transfer {
    Transfer {
        mint: accounts.nft_mint,
        from: accounts.from_token_account,
        to: accounts.to_token_account,
        authority: accounts.from,
        amount,
    }
}

/// The notification of a successful [`transfer_nft`].
pub open spec fn transferred_event(accounts: TransferNft, amount: u64) -> NftTransferred {
    NftTransferred {
        from: accounts.from,
        to: accounts.to,
        tree_id: accounts.nft_metadata.tree_id,
        amount,
    }
}

/// Checks a location and a planting date against the rules for a new
/// certificate.
pub fn validate_mint(location: &String, planting_date: i64) -> (checked: Result<(), ErrorCode>)
    ensures
        checked == match mint_args_error(location@, planting_date) {
            Some(code) => Err::<(), ErrorCode>(code),
            None => Ok(()),
        },
{
    if location.as_str().unicode_len() > MAX_LOCATION_LEN {
        return Err(ErrorCode::LocationTooLong);
    }
    if planting_date <= 0 {
        return Err(ErrorCode::InvalidDate);
    }
    Ok(())
}

/// Checks an amount to transfer: it must be exactly one.
pub fn validate_transfer(amount: u64) -> (checked: Result<(), ErrorCode>)
    ensures
        checked == match transfer_args_error(amount) {
            Some(code) => Err::<(), ErrorCode>(code),
            None => Ok(()),
        },
{
    if amount != 1 {
        return Err(ErrorCode::InvalidAmount);
    }
    Ok(())
}

/// Sets up the registry: the signer becomes its authority and its count
/// starts at zero. Never fails.
pub fn initialize(ctx: &mut Initialize) -> (done: Result<(), ErrorCode>)
    ensures
        done is Ok,
        final(ctx).tree_guardian == TreeGuardian::spec_new(
            old(ctx).authority,
            old(ctx).tree_guardian_bump,
        ),
        final(ctx).authority == old(ctx).authority,
        final(ctx).tree_guardian_bump == old(ctx).tree_guardian_bump,
{
    ctx.tree_guardian.authority = ctx.authority;
    ctx.tree_guardian.total_trees = 0;
    ctx.tree_guardian.bump = ctx.tree_guardian_bump;
    Ok(())
}

/// Issues one certificate.
///
/// A location of more than fifty characters is refused with
/// `LocationTooLong`, a planting date that is not positive with
/// `InvalidDate`, and nothing changes. Otherwise the registry's count goes up
/// by one, the new count becomes the number of the certificate, the record is
/// filled in, and the answer holds the request to mint one unit of the asset
/// to the owner and the notification to emit.
pub fn mint_nft(ctx: &mut MintNft, location: String, planting_date: i64) -> (done: Result<
    (MintTo, NftMinted),
    ErrorCode,
>)
    requires
        old(ctx).tree_guardian.total_trees < u64::MAX,
    ensures
        match mint_args_error(location@, planting_date) {
            Some(code) => {
                &&& done == Err::<(MintTo, NftMinted), ErrorCode>(code)
                &&& *final(ctx) == *old(ctx)
            },
            None => {
                &&& done == Ok::<(MintTo, NftMinted), ErrorCode>(
                    (mint_request(*old(ctx)), minted_event(*old(ctx), location, planting_date)),
                )
                &&& *final(ctx) == minted_accounts(*old(ctx), location, planting_date)
            },
        },
{
    match validate_mint(&location, planting_date) {
        Err(code) => {
            return Err(code);
        },
        Ok(()) => {},
    }
    let tree_id: u64 = ctx.tree_guardian.total_trees + 1;
    ctx.tree_guardian.total_trees = tree_id;

    ctx.nft_metadata.owner = ctx.owner;
    ctx.nft_metadata.location = location.clone();
    ctx.nft_metadata.planting_date = planting_date;
    ctx.nft_metadata.tree_id = tree_id;
    ctx.nft_metadata.impact_score = BASE_IMPACT_SCORE;
    ctx.nft_metadata.bump = ctx.nft_metadata_bump;

    let request = MintTo {
        mint: ctx.nft_mint,
        to: ctx.nft_token_account,
        authority: ctx.tree_guardian_key,
        amount: 1,
    };
    let event = NftMinted { owner: ctx.owner, tree_id, location, planting_date };
    Ok((request, event))
}

/// Moves the asset of a certificate to another holder.
///
/// Any amount but one is refused with `InvalidAmount`. Otherwise the answer
/// holds the request to move the unit between the two accounts, signed by the
/// giver, and the notification to emit. The certificate record is read for
/// its number and not changed.
pub fn transfer_nft(ctx: &TransferNft, amount: u64) -> (done: Result<
    (Transfer, NftTransferred),
    ErrorCode,
>)
    ensures
        done == match transfer_args_error(amount) {
            Some(code) => Err::<(Transfer, NftTransferred), ErrorCode>(code),
            None => Ok((transfer_request(*ctx, amount), transferred_event(*ctx, amount))),
        },
{
    match validate_transfer(amount) {
        Err(code) => {
            return Err(code);
        },
        Ok(()) => {},
    }
    let request = Transfer {
        mint: ctx.nft_mint,
        from: ctx.from_token_account,
        to: ctx.to_token_account,
        authority: ctx.from,
        amount,
    };
    let event = NftTransferred {
        from: ctx.from,
        to: ctx.to,
        tree_id: ctx.nft_metadata.tree_id,
        amount,
    };
    Ok((request, event))
}

} // verus!
