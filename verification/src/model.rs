//! The state of a ledger and what each operation makes of it.
//!
//! The ledger keeps the registry record at its derived address and, for every
//! asset it has minted, the certificate record at the address derived from the
//! asset, together with the identity that holds the asset's single unit.

use vstd::prelude::*;
use crate::address::{spec_metadata_address, spec_registry_address};
use crate::error::{Error, LedgerError};
use crate::instructions::{mint_args_error, transfer_args_error};
use crate::pubkey::Pubkey;
use crate::state::{NftMetadata, NftMinted, NftTransferred, TreeGuardian, BASE_IMPACT_SCORE};

verus! {

/// What the ledger keeps for one asset.
#[derive(Debug, PartialEq, Eq)]
pub struct Certificate {
    /// The asset: a single unit, minted when the certificate was issued.
    pub asset: Pubkey,
    /// The address of the certificate record.
    pub address: Pubkey,
    /// The certificate record.
    pub metadata: NftMetadata,
    /// Who holds the unit of the asset.
    pub holder: Pubkey,
}

impl Clone for Certificate {
    fn clone(&self) -> (copy: Certificate)
        ensures
            copy == *self,
    {
        Certificate {
            asset: self.asset,
            address: self.address,
            metadata: self.metadata.clone(),
            holder: self.holder,
        }
    }
}

/// The state of a ledger.
pub struct LedgerState {
    /// The program the records belong to.
    pub program_id: Pubkey,
    /// The address of the registry record.
    pub registry_address: Pubkey,
    /// The bump of that address.
    pub registry_bump: u8,
    /// The registry record, once it was created.
    pub registry: Option<TreeGuardian>,
    /// The certificates, in the order in which they were issued.
    pub certificates: Seq<Certificate>,
}

impl LedgerState {
    /// The state before anything happened, if the program has an address for
    /// its registry.
    pub open spec fn spec_new(program_id: Pubkey) -> Option<LedgerState> {
        match spec_registry_address(program_id) {
            Some((registry_address, registry_bump)) => Some(
                LedgerState {
                    program_id,
                    registry_address,
                    registry_bump,
                    registry: None,
                    certificates: Seq::empty(),
                },
            ),
            None => None,
        }
    }

    /// Whether the certificate at position `i` is that of `asset`.
    pub open spec fn holds_at(self, i: int, asset: Pubkey) -> bool {
        0 <= i < self.certificates.len() && self.certificates[i].asset == asset
    }

    /// Whether the ledger has minted `asset`.
    pub open spec fn knows(self, asset: Pubkey) -> bool {
        exists|i: int| self.holds_at(i, asset)
    }

    /// The position of the certificate of `asset`.
    pub open spec fn index_of(self, asset: Pubkey) -> int {
        choose|i: int| self.holds_at(i, asset)
    }

    /// The certificate that carries the number `tree_id`: the one at position
    /// `tree_id - 1`.
    pub open spec fn numbered(self, tree_id: u64) -> Option<Certificate> {
        if 1 <= tree_id <= self.certificates.len() {
            Some(self.certificates[tree_id - 1])
        } else {
            None
        }
    }

    /// The certificate record of `asset`.
    pub open spec fn metadata_of(self, asset: Pubkey) -> Option<NftMetadata> {
        if self.knows(asset) {
            Some(self.certificates[self.index_of(asset)].metadata)
        } else {
            None
        }
    }

    /// Who holds the unit of `asset`.
    pub open spec fn holder_of(self, asset: Pubkey) -> Option<Pubkey> {
        if self.knows(asset) {
            Some(self.certificates[self.index_of(asset)].holder)
        } else {
            None
        }
    }

    /// How many units of `asset` the identity `holder` holds: one if it holds
    /// the asset, none otherwise.
    pub open spec fn balance(self, asset: Pubkey, holder: Pubkey) -> nat {
        if self.holder_of(asset) == Some(holder) {
            1
        } else {
            0
        }
    }

    /// Whether the certificate at position `i` has its record at `address`.
    pub open spec fn record_at(self, i: int, address: Pubkey) -> bool {
        0 <= i < self.certificates.len() && self.certificates[i].address == address
    }

    /// Whether a record lives at `address`.
    pub open spec fn occupied(self, address: Pubkey) -> bool {
        ||| self.registry is Some && address == self.registry_address
        ||| exists|i: int| self.record_at(i, address)
    }

    /// How many certificates the registry counts, once it exists.
    pub open spec fn total(self) -> Option<u64> {
        match self.registry {
            Some(registry) => Some(registry.total_trees),
            None => None,
        }
    }

    /// What holds of the certificate at position `i` of a sound ledger: it
    /// carries the number `i + 1`, its record is valid, and the record lives at
    /// the address derived from its asset, apart from the registry.
    pub open spec fn certificate_wf(self, i: int) -> bool {
        let certificate = self.certificates[i];
        &&& certificate.metadata.tree_id == i + 1
        &&& certificate.metadata.valid()
        &&& spec_metadata_address(self.program_id, certificate.asset) == Some(
            (certificate.address, certificate.metadata.bump),
        )
        &&& certificate.address != self.registry_address
    }

    /// What holds of every ledger that the operations can reach.
    ///
    /// The registry record sits at the address derived for it. Without a
    /// registry there are no certificates; with one, its count is the number of
    /// certificates. The certificates are numbered 1, 2, 3 and so on in the
    /// order of issue, and no two records share an address.
    pub open spec fn wf(self) -> bool {
        &&& spec_registry_address(self.program_id) == Some(
            (self.registry_address, self.registry_bump),
        )
        &&& self.registry is None ==> self.certificates.len() == 0
        &&& self.registry matches Some(registry) ==> {
            &&& registry.total_trees == self.certificates.len()
            &&& registry.bump == self.registry_bump
        }
        &&& forall|i: int| 0 <= i < self.certificates.len() ==> #[trigger] self.certificate_wf(i)
        &&& forall|i: int, j: int|
            0 <= i < j < self.certificates.len() ==> #[trigger] self.certificates[i].address
                != #[trigger] self.certificates[j].address
    }

    /// Why the registry cannot be created, if it cannot: it exists already.
    pub open spec fn initialize_refusal(self) -> Option<Error> {
        if self.registry is Some {
            Some(Error::Ledger(LedgerError::AlreadyExists))
        } else {
            None
        }
    }

    /// The state once the registry was created for `authority`: a registry
    /// that has issued nothing.
    pub open spec fn initialized(self, authority: Pubkey) -> LedgerState {
        LedgerState {
            registry: Some(TreeGuardian::spec_new(authority, self.registry_bump)),
            ..self
        }
    }

    /// Creating the registry for `authority`: the state it leaves and its
    /// result. A refusal leaves the state as it was.
    pub open spec fn initialize(self, authority: Pubkey) -> (LedgerState, Result<(), Error>) {
        match self.initialize_refusal() {
            Some(error) => (self, Err(error)),
            None => (self.initialized(authority), Ok(())),
        }
    }

    /// Why a certificate cannot be issued, if it cannot.
    ///
    /// The location and the date are checked first. Then the registry must
    /// exist, as the authority under which the asset is minted; the asset must
    /// derive an address for its record; and no record may live there yet.
    pub open spec fn issue_refusal(self, asset: Pubkey, location: String, planting_date: i64)
        -> Option<Error> {
        if let Some(code) = mint_args_error(location@, planting_date) {
            Some(Error::Validation(code))
        } else if self.registry is None {
            Some(Error::Ledger(LedgerError::Unauthorized))
        } else {
            match spec_metadata_address(self.program_id, asset) {
                None => Some(Error::Ledger(LedgerError::NoAddress)),
                Some((address, _)) => if self.occupied(address) {
                    Some(Error::Ledger(LedgerError::AlreadyExists))
                } else {
                    None
                },
            }
        }
    }

    /// The number that the next certificate gets: one more than the count.
    pub open spec fn next_tree_id(self) -> u64 {
        self.registry.unwrap().spec_advanced().total_trees
    }

    /// The certificate that issuing makes of its arguments.
    pub open spec fn issued_certificate(
        self,
        asset: Pubkey,
        owner: Pubkey,
        location: String,
        planting_date: i64,
    ) -> Certificate {
        let (address, bump) = spec_metadata_address(self.program_id, asset).unwrap();
        Certificate {
            asset,
            address,
            metadata: NftMetadata {
                owner,
                location,
                planting_date,
                tree_id: self.next_tree_id(),
                impact_score: BASE_IMPACT_SCORE,
                bump,
            },
            holder: owner,
        }
    }

    /// The state once a certificate was issued: the registry counts one more,
    /// and the new certificate comes last, its asset held by `owner`.
    pub open spec fn issued(
        self,
        asset: Pubkey,
        owner: Pubkey,
        location: String,
        planting_date: i64,
    ) -> LedgerState {
        LedgerState {
            registry: Some(self.registry.unwrap().spec_advanced()),
            certificates: self.certificates.push(
                self.issued_certificate(asset, owner, location, planting_date),
            ),
            ..self
        }
    }

    /// Issuing a certificate for the new asset `asset` to `owner`: the state
    /// it leaves and its result. A refusal leaves the state as it was.
    pub open spec fn issue(
        self,
        asset: Pubkey,
        owner: Pubkey,
        location: String,
        planting_date: i64,
    ) -> (LedgerState, Result<NftMinted, Error>) {
        match self.issue_refusal(asset, location, planting_date) {
            Some(error) => (self, Err(error)),
            None => (
                self.issued(asset, owner, location, planting_date),
                Ok(NftMinted { owner, tree_id: self.next_tree_id(), location, planting_date }),
            ),
        }
    }

    /// Issuing a certificate on the condition that the registry still counts
    /// `observed` certificates, the count that the one who asks has read.
    ///
    /// Where the input is valid and the registry exists but counts otherwise,
    /// the request is refused with `OrderingFailure` and the state stays as it
    /// was. In every other case the outcome is that of [`LedgerState::issue`].
    pub open spec fn issue_at(
        self,
        observed: u64,
        asset: Pubkey,
        owner: Pubkey,
        location: String,
        planting_date: i64,
    ) -> (LedgerState, Result<NftMinted, Error>) {
        if mint_args_error(location@, planting_date) is None && self.registry is Some
            && self.total() != Some(observed) {
            (self, Err(Error::Ledger(LedgerError::OrderingFailure)))
        } else {
            self.issue(asset, owner, location, planting_date)
        }
    }

    /// Why an asset cannot be moved, if it cannot.
    ///
    /// The amount is checked first. Then the asset must exist, and `from` must
    /// hold its unit.
    pub open spec fn transfer_refusal(self, asset: Pubkey, from: Pubkey, amount: u64) -> Option<
        Error,
    > {
        if let Some(code) = transfer_args_error(amount) {
            Some(Error::Validation(code))
        } else if !self.knows(asset) {
            Some(Error::Ledger(LedgerError::AssetNotFound))
        } else if self.holder_of(asset) != Some(from) {
            Some(Error::Ledger(LedgerError::InsufficientBalance))
        } else {
            None
        }
    }

    /// The state once `asset` was moved to `to`: `to` holds it, and nothing
    /// else has changed.
    pub open spec fn transferred(self, asset: Pubkey, to: Pubkey) -> LedgerState {
        let i = self.index_of(asset);
        LedgerState {
            certificates: self.certificates.update(
                i,
                Certificate { holder: to, ..self.certificates[i] },
            ),
            ..self
        }
    }

    /// Moving `amount` units of `asset` from `from` to `to`: the state it
    /// leaves and its result. A refusal leaves the state as it was.
    pub open spec fn transfer(self, asset: Pubkey, from: Pubkey, to: Pubkey, amount: u64) -> (
        LedgerState,
        Result<NftTransferred, Error>,
    ) {
        match self.transfer_refusal(asset, from, amount) {
            Some(error) => (self, Err(error)),
            None => (
                self.transferred(asset, to),
                Ok(
                    NftTransferred {
                        from,
                        to,
                        tree_id: self.certificates[self.index_of(asset)].metadata.tree_id,
                        amount,
                    },
                ),
            ),
        }
    }

    /// In a sound ledger no two certificates are for the same asset: the
    /// address of a record is derived from its asset, and no address is taken
    /// twice.
    pub proof fn lemma_one_certificate_per_asset(self, i: int, j: int)
        requires
            self.wf(),
            0 <= i < self.certificates.len(),
            0 <= j < self.certificates.len(),
            self.certificates[i].asset == self.certificates[j].asset,
        ensures
            i == j,
    {
        assert(self.certificate_wf(i));
        assert(self.certificate_wf(j));
    }

    /// In a sound ledger the certificate of an asset is the one at the
    /// position where the asset is found.
    pub proof fn lemma_index_of(self, i: int, asset: Pubkey)
        requires
            self.wf(),
            self.holds_at(i, asset),
        ensures
            self.knows(asset),
            self.index_of(asset) == i,
    {
        self.lemma_one_certificate_per_asset(i, self.index_of(asset));
    }

    /// Creating the registry keeps the ledger sound.
    pub proof fn lemma_initialize_keeps_wf(self, authority: Pubkey)
        requires
            self.wf(),
        ensures
            self.initialize(authority).0.wf(),
    {
    }

    /// Issuing a certificate keeps the ledger sound, as long as the count
    /// fits its type.
    pub proof fn lemma_issue_keeps_wf(
        self,
        asset: Pubkey,
        owner: Pubkey,
        location: String,
        planting_date: i64,
    )
        requires
            self.wf(),
            self.total() matches Some(total) ==> total < u64::MAX,
        ensures
            self.issue(asset, owner, location, planting_date).0.wf(),
    {
        if self.issue_refusal(asset, location, planting_date) is None {
            let next = self.issued(asset, owner, location, planting_date);
            let n = self.certificates.len() as int;
            let (address, _) = spec_metadata_address(self.program_id, asset).unwrap();
            assert(!self.occupied(address));
            assert forall|i: int| 0 <= i < next.certificates.len() implies
                #[trigger] next.certificate_wf(i) by {
                if i < n {
                    assert(self.certificate_wf(i));
                }
            }
            assert forall|i: int, j: int| 0 <= i < j < next.certificates.len() implies
                #[trigger] next.certificates[i].address
                != #[trigger] next.certificates[j].address by {
                if j == n {
                    assert(!self.record_at(i, address));
                }
            }
        }
    }

    /// Moving an asset keeps the ledger sound.
    pub proof fn lemma_transfer_keeps_wf(self, asset: Pubkey, from: Pubkey, to: Pubkey, amount: u64)
        requires
            self.wf(),
        ensures
            self.transfer(asset, from, to, amount).0.wf(),
    {
        if self.transfer_refusal(asset, from, amount) is None {
            let next = self.transferred(asset, to);
            assert forall|i: int| 0 <= i < next.certificates.len() implies
                #[trigger] next.certificate_wf(i) by {
                assert(self.certificate_wf(i));
            }
        }
    }
}

} // verus!
