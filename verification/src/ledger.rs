//! The registry run against a ledger held in memory.
//!
//! Each operation checks its input, looks up or derives the records it works
//! on, runs the registry's own logic on them and carries out what that logic
//! asks of the ledger. It either takes effect as a whole or fails and leaves
//! the ledger as it was.

use vstd::prelude::*;
use crate::address::{metadata_address, registry_address};
use crate::error::{Error, LedgerError};
use crate::instructions::{
    initialize, mint_nft, transfer_nft, validate_mint, validate_transfer, Initialize, MintNft,
    TransferNft,
};
use crate::model::{Certificate, LedgerState};
use crate::pubkey::Pubkey;
use crate::state::{NftMetadata, NftMinted, NftTransferred, TreeGuardian};

verus! {

/// What a ledger holds. Nothing keeps a book sound but the care of those who
/// write to it: every function here asks for a sound book and leaves one.
struct Book {
    program_id: Pubkey,
    registry_address: Pubkey,
    registry_bump: u8,
    registry: Option<TreeGuardian>,
    certificates: Vec<Certificate>,
}

impl View for Book {
    type V = LedgerState;

    closed spec fn view(&self) -> LedgerState {
        LedgerState {
            program_id: self.program_id,
            registry_address: self.registry_address,
            registry_bump: self.registry_bump,
            registry: self.registry,
            certificates: self.certificates@,
        }
    }
}

impl Book {
    fn new(program_id: Pubkey) -> (made: Option<Book>)
        ensures
            match LedgerState::spec_new(program_id) {
                Some(state) => made matches Some(book) && book@ == state && book@.wf(),
                None => made is None,
            },
    {
        match registry_address(&program_id) {
            Some((registry_address, registry_bump)) => Some(
                Book {
                    program_id,
                    registry_address,
                    registry_bump,
                    registry: None,
                    certificates: Vec::new(),
                },
            ),
            None => None,
        }
    }

    /// An empty book for the same program.
    fn blank(&self) -> (blank: Book)
        requires
            self@.wf(),
        ensures
            blank@.wf(),
    {
        Book {
            program_id: self.program_id,
            registry_address: self.registry_address,
            registry_bump: self.registry_bump,
            registry: None,
            certificates: Vec::new(),
        }
    }

    fn position(&self, asset: &Pubkey) -> (found: Option<usize>)
        requires
            self@.wf(),
        ensures
            match found {
                Some(i) => self@.knows(*asset) && i == self@.index_of(*asset),
                None => !self@.knows(*asset),
            },
    {
        let mut i: usize = 0;
        while i < self.certificates.len()
            invariant
                i <= self.certificates.len(),
                self@.wf(),
                forall|j: int| 0 <= j < i ==> !self@.holds_at(j, *asset),
            decreases self.certificates.len() - i,
        {
            if self.certificates[i].asset == *asset {
                proof {
                    self@.lemma_index_of(i as int, *asset);
                }
                return Some(i);
            }
            i += 1;
        }
        None
    }

    fn occupied(&self, address: &Pubkey) -> (taken: bool)
        ensures
            taken == self@.occupied(*address),
    {
        if self.registry.is_some() && *address == self.registry_address {
            return true;
        }
        let mut i: usize = 0;
        while i < self.certificates.len()
            invariant
                i <= self.certificates.len(),
                forall|j: int| 0 <= j < i ==> !self@.record_at(j, *address),
            decreases self.certificates.len() - i,
        {
            if self.certificates[i].address == *address {
                assert(self@.record_at(i as int, *address));
                return true;
            }
            i += 1;
        }
        false
    }

    fn certificate(&self, tree_id: u64) -> (found: Option<Certificate>)
        requires
            self@.wf(),
        ensures
            found == self@.numbered(tree_id),
            found matches Some(certificate) ==> certificate.metadata.tree_id == tree_id,
    {
        if tree_id == 0 || tree_id > self.certificates.len() as u64 {
            return None;
        }
        let i: usize = (tree_id - 1) as usize;
        assert(self@.certificate_wf(i as int));
        Some(self.certificates[i].clone())
    }

    fn metadata(&self, asset: &Pubkey) -> (record: Option<NftMetadata>)
        requires
            self@.wf(),
        ensures
            record == self@.metadata_of(*asset),
    {
        match self.position(asset) {
            Some(i) => Some(self.certificates[i].metadata.clone()),
            None => None,
        }
    }

    fn holder(&self, asset: &Pubkey) -> (holder: Option<Pubkey>)
        requires
            self@.wf(),
        ensures
            holder == self@.holder_of(*asset),
    {
        match self.position(asset) {
            Some(i) => Some(self.certificates[i].holder),
            None => None,
        }
    }

    fn initialize(&mut self, authority: Pubkey) -> (done: Result<(), Error>)
        requires
            old(self)@.wf(),
        ensures
            final(self)@.wf(),
            final(self)@ == old(self)@.initialize(authority).0,
            done == old(self)@.initialize(authority).1,
    {
        if self.registry.is_some() {
            return Err(Error::Ledger(LedgerError::AlreadyExists));
        }
        let mut ctx = Initialize {
            tree_guardian: TreeGuardian::default(),
            authority,
            tree_guardian_bump: self.registry_bump,
        };
        match initialize(&mut ctx) {
            Ok(()) => {},
            Err(code) => {
                return Err(Error::Validation(code));
            },
        }
        self.registry = Some(ctx.tree_guardian);
        Ok(())
    }

    fn issue(
        &mut self,
        asset: Pubkey,
        owner: Pubkey,
        location: String,
        planting_date: i64,
    ) -> (done: Result<NftMinted, Error>)
        requires
            old(self)@.wf(),
            old(self)@.total() matches Some(total) ==> total < u64::MAX,
        ensures
            final(self)@.wf(),
            final(self)@ == old(self)@.issue(asset, owner, location, planting_date).0,
            done == old(self)@.issue(asset, owner, location, planting_date).1,
    {
        match validate_mint(&location, planting_date) {
            Ok(()) => {},
            Err(code) => {
                return Err(Error::Validation(code));
            },
        }
        let registry = match self.registry {
            Some(registry) => registry,
            None => {
                return Err(Error::Ledger(LedgerError::Unauthorized));
            },
        };
        let (address, bump) = match metadata_address(&self.program_id, &asset) {
            Some(derived) => derived,
            None => {
                return Err(Error::Ledger(LedgerError::NoAddress));
            },
        };
        if self.occupied(&address) {
            return Err(Error::Ledger(LedgerError::AlreadyExists));
        }
        let mut ctx = MintNft {
            tree_guardian: registry,
            tree_guardian_key: self.registry_address,
            nft_mint: asset,
            nft_metadata: NftMetadata::default(),
            nft_metadata_bump: bump,
            nft_token_account: owner,
            owner,
        };
        let (request, event) = match mint_nft(&mut ctx, location, planting_date) {
            Ok(outcome) => outcome,
            Err(code) => {
                return Err(Error::Validation(code));
            },
        };
        // The ledger mints what was asked for: one unit of the new asset,
        // under the authority of the registry, to the owner.
        assert(request.authority == self.registry_address && request.amount == 1);
        let ghost before = self@;
        self.registry = Some(ctx.tree_guardian);
        self.certificates.push(
            Certificate {
                asset: request.mint,
                address,
                metadata: ctx.nft_metadata,
                holder: request.to,
            },
        );
        proof {
            before.lemma_issue_keeps_wf(asset, owner, location, planting_date);
        }
        Ok(event)
    }

    fn issue_at(
        &mut self,
        observed: u64,
        asset: Pubkey,
        owner: Pubkey,
        location: String,
        planting_date: i64,
    ) -> (done: Result<NftMinted, Error>)
        requires
            old(self)@.wf(),
            old(self)@.total() matches Some(total) ==> total < u64::MAX,
        ensures
            final(self)@.wf(),
            final(self)@ == old(self)@.issue_at(observed, asset, owner, location, planting_date).0,
            done == old(self)@.issue_at(observed, asset, owner, location, planting_date).1,
    {
        if validate_mint(&location, planting_date).is_ok() {
            if let Some(registry) = self.registry {
                if registry.total_trees != observed {
                    return Err(Error::Ledger(LedgerError::OrderingFailure));
                }
            }
        }
        self.issue(asset, owner, location, planting_date)
    }

    fn transfer(&mut self, asset: Pubkey, from: Pubkey, to: Pubkey, amount: u64) -> (done: Result<
        NftTransferred,
        Error,
    >)
        requires
            old(self)@.wf(),
        ensures
            final(self)@.wf(),
            final(self)@ == old(self)@.transfer(asset, from, to, amount).0,
            done == old(self)@.transfer(asset, from, to, amount).1,
    {
        match validate_transfer(amount) {
            Ok(()) => {},
            Err(code) => {
                return Err(Error::Validation(code));
            },
        }
        let i = match self.position(&asset) {
            Some(i) => i,
            None => {
                return Err(Error::Ledger(LedgerError::AssetNotFound));
            },
        };
        let ctx = TransferNft {
            nft_metadata: self.certificates[i].metadata.clone(),
            nft_mint: asset,
            from_token_account: from,
            to_token_account: to,
            from,
            to,
        };
        let (request, event) = match transfer_nft(&ctx, amount) {
            Ok(outcome) => outcome,
            Err(code) => {
                return Err(Error::Validation(code));
            },
        };
        // The ledger moves what was asked for: one unit, signed for by the
        // one who gives it away, if that one holds it.
        assert(request.authority == request.from && request.amount == 1);
        if self.certificates[i].holder != request.from {
            return Err(Error::Ledger(LedgerError::InsufficientBalance));
        }
        let ghost before = self@;
        self.certificates[i].holder = request.to;
        proof {
            before.lemma_transfer_keeps_wf(asset, from, to, amount);
        }
        Ok(event)
    }
}

/// A ledger held in memory, with the registry of one program on it.
///
/// The ledger holds for each asset the identity that holds its one unit. An
/// identity's holding account for an asset goes by the identity's own key,
/// and whoever asks for a transfer is taken to have signed for it.
///
/// A ledger is sound at all times: its state satisfies [`LedgerState::wf`].
pub struct Ledger {
    book: Book,
}

impl View for Ledger {
    type V = LedgerState;

    closed spec fn view(&self) -> LedgerState {
        self.book@
    }
}

impl Ledger {
    #[verifier::type_invariant]
    spec fn sound(self) -> bool {
        self.book@.wf()
    }

    /// An empty ledger for the program `program_id`: no registry, no
    /// certificates. `None` where the program has no address for its registry.
    pub fn new(program_id: Pubkey) -> (made: Option<Ledger>)
        ensures
            match LedgerState::spec_new(program_id) {
                Some(state) => made matches Some(ledger) && ledger@ == state,
                None => made is None,
            },
            made matches Some(ledger) ==> ledger@.wf(),
    {
        match Book::new(program_id) {
            Some(book) => Some(Ledger { book }),
            None => None,
        }
    }

    /// The program the records belong to.
    pub fn program_id(&self) -> (program_id: Pubkey)
        ensures
            program_id == self@.program_id,
            self@.wf(),
    {
        proof {
            use_type_invariant(self);
        }
        self.book.program_id
    }

    /// The address of the registry record.
    pub fn registry_address(&self) -> (address: Pubkey)
        ensures
            address == self@.registry_address,
            self@.wf(),
    {
        proof {
            use_type_invariant(self);
        }
        self.book.registry_address
    }

    /// The registry record, once it was created.
    pub fn registry(&self) -> (registry: Option<TreeGuardian>)
        ensures
            registry == self@.registry,
            self@.wf(),
    {
        proof {
            use_type_invariant(self);
        }
        self.book.registry
    }

    /// How many certificates the ledger holds.
    pub fn certificate_count(&self) -> (count: usize)
        ensures
            count == self@.certificates.len(),
            self@.wf(),
    {
        proof {
            use_type_invariant(self);
        }
        self.book.certificates.len()
    }

    /// What the ledger keeps for the certificate that carries the number
    /// `tree_id`, if there is one.
    pub fn certificate(&self, tree_id: u64) -> (found: Option<Certificate>)
        ensures
            found == self@.numbered(tree_id),
            found matches Some(certificate) ==> certificate.metadata.tree_id == tree_id,
            self@.wf(),
    {
        proof {
            use_type_invariant(self);
        }
        self.book.certificate(tree_id)
    }

    /// The certificate record of `asset`, if the ledger has minted it.
    pub fn metadata(&self, asset: &Pubkey) -> (record: Option<NftMetadata>)
        ensures
            record == self@.metadata_of(*asset),
            self@.wf(),
    {
        proof {
            use_type_invariant(self);
        }
        self.book.metadata(asset)
    }

    /// Who holds the unit of `asset`, if the ledger has minted it.
    pub fn holder(&self, asset: &Pubkey) -> (holder: Option<Pubkey>)
        ensures
            holder == self@.holder_of(*asset),
            self@.wf(),
    {
        proof {
            use_type_invariant(self);
        }
        self.book.holder(asset)
    }

    /// How many units of `asset` the identity `holder` holds.
    pub fn balance(&self, asset: &Pubkey, holder: &Pubkey) -> (units: u64)
        ensures
            units == self@.balance(*asset, *holder),
            self@.wf(),
    {
        proof {
            use_type_invariant(self);
        }
        match self.book.holder(asset) {
            Some(held_by) => if held_by == *holder {
                1
            } else {
                0
            },
            None => 0,
        }
    }

    /// Creates the registry, with `authority` in control of it.
    ///
    /// Fails with `AlreadyExists` where the registry exists already, and then
    /// changes nothing.
    pub fn initialize(&mut self, authority: Pubkey) -> (done: Result<(), Error>)
        ensures
            final(self)@ == old(self)@.initialize(authority).0,
            done == old(self)@.initialize(authority).1,
            final(self)@.wf(),
    {
        proof {
            use_type_invariant(&*self);
        }
        let mut book = self.book.blank();
        core::mem::swap(&mut book, &mut self.book);
        let done = book.initialize(authority);
        self.book = book;
        done
    }

    /// Issues a certificate for the new asset `asset` to `owner`.
    ///
    /// On success the registry counts one certificate more, the certificate
    /// carries the new count as its number, and `owner` holds the one unit of
    /// the asset. On failure nothing changes.
    pub fn issue(
        &mut self,
        asset: Pubkey,
        owner: Pubkey,
        location: String,
        planting_date: i64,
    ) -> (done: Result<NftMinted, Error>)
        requires
            old(self)@.total() matches Some(total) ==> total < u64::MAX,
        ensures
            final(self)@ == old(self)@.issue(asset, owner, location, planting_date).0,
            done == old(self)@.issue(asset, owner, location, planting_date).1,
            final(self)@.wf(),
    {
        proof {
            use_type_invariant(&*self);
        }
        let mut book = self.book.blank();
        core::mem::swap(&mut book, &mut self.book);
        let done = book.issue(asset, owner, location, planting_date);
        self.book = book;
        done
    }

    /// Issues a certificate as [`Ledger::issue`] does, on the condition that
    /// the registry still counts `observed` certificates.
    ///
    /// Two who read the same count and then both ask cannot both be served:
    /// the one that comes second finds the count changed and fails with
    /// `OrderingFailure`, with nothing changed, and may ask again.
    pub fn issue_at(
        &mut self,
        observed: u64,
        asset: Pubkey,
        owner: Pubkey,
        location: String,
        planting_date: i64,
    ) -> (done: Result<NftMinted, Error>)
        requires
            old(self)@.total() matches Some(total) ==> total < u64::MAX,
        ensures
            final(self)@ == old(self)@.issue_at(observed, asset, owner, location, planting_date).0,
            done == old(self)@.issue_at(observed, asset, owner, location, planting_date).1,
            final(self)@.wf(),
    {
        proof {
            use_type_invariant(&*self);
        }
        let mut book = self.book.blank();
        core::mem::swap(&mut book, &mut self.book);
        let done = book.issue_at(observed, asset, owner, location, planting_date);
        self.book = book;
        done
    }

    /// Moves the asset `asset` from `from`, who asks for it, to `to`.
    ///
    /// Fails with `InvalidAmount` unless `amount` is one, with `AssetNotFound`
    /// where the ledger has not minted the asset, and with
    /// `InsufficientBalance` where `from` does not hold it; nothing changes
    /// then. On success `to` holds the asset. The certificate record stays as
    /// it is.
    pub fn transfer(&mut self, asset: Pubkey, from: Pubkey, to: Pubkey, amount: u64) -> (done:
        Result<NftTransferred, Error>)
        ensures
            final(self)@ == old(self)@.transfer(asset, from, to, amount).0,
            done == old(self)@.transfer(asset, from, to, amount).1,
            final(self)@.wf(),
    {
        proof {
            use_type_invariant(&*self);
        }
        let mut book = self.book.blank();
        core::mem::swap(&mut book, &mut self.book);
        let done = book.transfer(asset, from, to, amount);
        self.book = book;
        done
    }
}

} // verus!
