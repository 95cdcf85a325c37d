//! The records the registry keeps, the notifications it emits and the
//! requests it hands to the ledger.

use vstd::prelude::*;
use crate::pubkey::Pubkey;

verus! {

/// The longest location a certificate may carry, in characters.
pub const MAX_LOCATION_LEN: usize = 50;

/// The impact score every certificate carries from the moment it is issued.
pub const BASE_IMPACT_SCORE: u32 = 100;

/// The registry: one record per deployment.
#[derive(Clone, Copy, Debug, PartialEq, Eq)]
pub struct TreeGuardian {
    /// Who controls the registry. Set when the registry is created.
    pub authority: Pubkey,
    /// How many certificates have been issued so far.
    pub total_trees: u64,
    /// The bump of the registry's address.
    pub bump: u8,
}

/// The record of one certificate.
#[derive(Debug, PartialEq, Eq)]
pub struct NftMetadata {
    /// Who received the certificate when it was issued. A transfer of the
    /// asset does not change this field.
    pub owner: Pubkey,
    /// Where the tree stands.
    pub location: String,
    /// When the tree was planted.
    pub planting_date: i64,
    /// The number of the certificate: the registry's count when it was issued.
    pub tree_id: u64,
    /// The impact score of the tree.
    pub impact_score: u32,
    /// The bump of the record's address.
    pub bump: u8,
}

/// Tells that a certificate was issued.
#[derive(Debug, PartialEq, Eq)]
pub struct NftMinted {
    pub owner: Pubkey,
    pub tree_id: u64,
    pub location: String,
    pub planting_date: i64,
}

/// Tells that the asset of a certificate changed hands.
#[derive(Clone, Copy, Debug, PartialEq, Eq)]
pub struct NftTransferred {
    pub from: Pubkey,
    pub to: Pubkey,
    pub tree_id: u64,
    pub amount: u64,
}

/// Asks the ledger to mint units of an asset.
#[derive(Clone, Copy, Debug, PartialEq, Eq)]
pub struct MintTo {
    /// The asset to mint.
    pub mint: Pubkey,
    /// The holding account to credit.
    pub to: Pubkey,
    /// The authority under which the units are minted.
    pub authority: Pubkey,
    /// How many units to mint.
    pub amount: u64,
}

/// Asks the ledger to move units of an asset from one holding account to
/// another.
#[derive(Clone, Copy, Debug, PartialEq, Eq)]
pub struct Transfer {
    /// The asset to move.
    pub mint: Pubkey,
    /// The holding account to debit.
    pub from: Pubkey,
    /// The holding account to credit.
    pub to: Pubkey,
    /// Who signs for the source account.
    pub authority: Pubkey,
    /// How many units to move.
    pub amount: u64,
}

impl TreeGuardian {
    /// The registry as it is created: nothing issued yet.
    pub open spec fn spec_new(authority: Pubkey, bump: u8) -> TreeGuardian {
        TreeGuardian { authority, total_trees: 0, bump }
    }

    /// The registry after one more certificate was issued.
    pub open spec fn spec_advanced(self) -> TreeGuardian {
        TreeGuardian { total_trees: (self.total_trees + 1) as u64, ..self }
    }
}

impl NftMetadata {
    /// What holds of every record the registry writes.
    pub open spec fn valid(&self) -> bool {
        &&& self.location@.len() <= MAX_LOCATION_LEN
        &&& self.planting_date > 0
        &&& self.tree_id >= 1
        &&& self.impact_score == BASE_IMPACT_SCORE
    }
}

impl Default for TreeGuardian {
    /// A registry record that nothing was written to yet.
    fn default() -> (blank: TreeGuardian)
        ensures
            blank.authority@ == Seq::new(32, |i: int| 0u8),
            blank.total_trees == 0,
            blank.bump == 0,
    {
        TreeGuardian { authority: Pubkey::default(), total_trees: 0, bump: 0 }
    }
}

impl Default for NftMetadata {
    /// A certificate record that nothing was written to yet.
    fn default() -> (blank: NftMetadata)
        ensures
            blank.owner@ == Seq::new(32, |i: int| 0u8),
            blank.location@.len() == 0,
            blank.planting_date == 0,
            blank.tree_id == 0,
            blank.impact_score == 0,
            blank.bump == 0,
    {
        NftMetadata {
            owner: Pubkey::default(),
            location: String::new(),
            planting_date: 0,
            tree_id: 0,
            impact_score: 0,
            bump: 0,
        }
    }
}

impl Clone for NftMetadata {
    fn clone(&self) -> (copy: NftMetadata)
        ensures
            copy == *self,
    {
        NftMetadata {
            owner: self.owner,
            location: self.location.clone(),
            planting_date: self.planting_date,
            tree_id: self.tree_id,
            impact_score: self.impact_score,
            bump: self.bump,
        }
    }
}

impl Clone for NftMinted {
    fn clone(&self) -> (copy: NftMinted)
        ensures
            copy == *self,
    {
        NftMinted {
            owner: self.owner,
            tree_id: self.tree_id,
            location: self.location.clone(),
            planting_date: self.planting_date,
        }
    }
}

} // verus!
