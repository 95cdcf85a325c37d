//! What holds of the ledger whatever is asked of it.

use vstd::prelude::*;
use crate::address::spec_metadata_address;
use crate::error::{Error, ErrorCode, LedgerError};
use crate::instructions::{
    mint_args_error, mint_request, minted_accounts, minted_event, transfer_args_error,
    transfer_request, transferred_event, MintNft, TransferNft,
};
use crate::model::{Certificate, LedgerState};
use crate::pubkey::Pubkey;
use crate::state::{
    MintTo, NftMetadata, NftMinted, NftTransferred, Transfer, BASE_IMPACT_SCORE,
};

verus! {

/// One request to issue a certificate.
pub struct IssueRequest {
    pub asset: Pubkey,
    pub owner: Pubkey,
    pub location: String,
    pub planting_date: i64,
}

/// The state that `start` is in after the requests were issued on it one after
/// the other.
pub open spec fn issue_all(start: LedgerState, requests: Seq<IssueRequest>) -> LedgerState
    decreases requests.len(),
{
    if requests.len() == 0 {
        start
    } else {
        let last = requests.last();
        issue_all(start, requests.drop_last()).issue(
            last.asset,
            last.owner,
            last.location,
            last.planting_date,
        ).0
    }
}

/// Whether every one of the requests, issued on `start` one after the other,
/// succeeds.
pub open spec fn all_issued(start: LedgerState, requests: Seq<IssueRequest>) -> bool
    decreases requests.len(),
{
    if requests.len() == 0 {
        true
    } else {
        let last = requests.last();
        &&& all_issued(start, requests.drop_last())
        &&& issue_all(start, requests.drop_last()).issue(
            last.asset,
            last.owner,
            last.location,
            last.planting_date,
        ).1 is Ok
    }
}

/// What the request at position `k` is answered with, when the requests are
/// issued on `start` one after the other.
pub open spec fn answer(start: LedgerState, requests: Seq<IssueRequest>, k: int) -> Result<
    NftMinted,
    Error,
> {
    issue_all(start, requests.take(k)).issue(
        requests[k].asset,
        requests[k].owner,
        requests[k].location,
        requests[k].planting_date,
    ).1
}

/// Something that can be asked of the ledger.
pub enum Operation {
    Initialize { authority: Pubkey },
    Issue { asset: Pubkey, owner: Pubkey, location: String, planting_date: i64 },
    IssueAt { observed: u64, asset: Pubkey, owner: Pubkey, location: String, planting_date: i64 },
    Transfer { asset: Pubkey, from: Pubkey, to: Pubkey, amount: u64 },
}

/// The state that an operation leaves, whether it succeeds or is refused.
pub open spec fn apply(state: LedgerState, operation: Operation) -> LedgerState {
    match operation {
        Operation::Initialize { authority } => state.initialize(authority).0,
        Operation::Issue { asset, owner, location, planting_date } => state.issue(
            asset,
            owner,
            location,
            planting_date,
        ).0,
        Operation::IssueAt { observed, asset, owner, location, planting_date } => state.issue_at(
            observed,
            asset,
            owner,
            location,
            planting_date,
        ).0,
        Operation::Transfer { asset, from, to, amount } => state.transfer(
            asset,
            from,
            to,
            amount,
        ).0,
    }
}

/// The state that `start` is in after the operations were applied to it one
/// after the other.
pub open spec fn run(start: LedgerState, operations: Seq<Operation>) -> LedgerState
    decreases operations.len(),
{
    if operations.len() == 0 {
        start
    } else {
        apply(run(start, operations.drop_last()), operations.last())
    }
}

/// A new ledger is sound and empty.
pub proof fn lemma_new_ledger_is_sound(program_id: Pubkey)
    ensures
        LedgerState::spec_new(program_id) matches Some(state) ==> {
            &&& state.wf()
            &&& state.program_id == program_id
            &&& state.registry is None
            &&& state.certificates.len() == 0
        },
{
}

/// Whatever is asked of a sound ledger leaves it sound, as long as the count
/// fits its type.
pub proof fn lemma_apply_keeps_wf(state: LedgerState, operation: Operation)
    requires
        state.wf(),
        state.certificates.len() < u64::MAX,
    ensures
        apply(state, operation).wf(),
        state.certificates.len() <= apply(state, operation).certificates.len()
            <= state.certificates.len() + 1,
{
    match operation {
        Operation::Initialize { authority } => {
            state.lemma_initialize_keeps_wf(authority);
        },
        Operation::Issue { asset, owner, location, planting_date } => {
            state.lemma_issue_keeps_wf(asset, owner, location, planting_date);
        },
        Operation::IssueAt { observed, asset, owner, location, planting_date } => {
            state.lemma_issue_keeps_wf(asset, owner, location, planting_date);
        },
        Operation::Transfer { asset, from, to, amount } => {
            state.lemma_transfer_keeps_wf(asset, from, to, amount);
        },
    }
}

/// Every state that a ledger passes through is sound: whatever is asked of
/// it, in whatever order, the certificates stay numbered 1, 2, 3 and so on
/// without gaps or repeats, the registry counts them, and no two records
/// share an address.
pub proof fn lemma_every_state_is_sound(start: LedgerState, operations: Seq<Operation>)
    requires
        start.wf(),
        start.certificates.len() + operations.len() <= u64::MAX,
    ensures
        run(start, operations).wf(),
        start.certificates.len() <= run(start, operations).certificates.len()
            <= start.certificates.len() + operations.len(),
    decreases operations.len(),
{
    if operations.len() > 0 {
        lemma_every_state_is_sound(start, operations.drop_last());
        lemma_apply_keeps_wf(run(start, operations.drop_last()), operations.last());
    }
}

/// The registry only moves forward. Once it exists it stays, under the
/// authority that created it, and its count never goes down: an operation
/// leaves it where it is or, when a certificate is issued, one higher.
pub proof fn lemma_registry_only_moves_forward(state: LedgerState, operation: Operation)
    requires
        state.wf(),
        state.certificates.len() < u64::MAX,
        state.registry is Some,
    ensures
        ({
            let before = state.registry.unwrap();
            let after = apply(state, operation).registry;
            &&& after is Some
            &&& after.unwrap().authority == before.authority
            &&& after.unwrap().bump == before.bump
            &&& after.unwrap().total_trees == before.total_trees || after.unwrap().total_trees
                == before.total_trees + 1
        }),
{
}

/// A certificate is for good. Once an asset is on the ledger it stays there,
/// whatever is asked afterwards, and its record never changes: not its
/// number, not the owner it names, not even when the asset changes hands.
pub proof fn lemma_certificates_are_permanent(
    state: LedgerState,
    operation: Operation,
    asset: Pubkey,
)
    requires
        state.wf(),
        state.certificates.len() < u64::MAX,
        state.knows(asset),
    ensures
        apply(state, operation).knows(asset),
        apply(state, operation).metadata_of(asset) == state.metadata_of(asset),
{
    let next = apply(state, operation);
    let i = state.index_of(asset);
    lemma_apply_keeps_wf(state, operation);
    assert(next.holds_at(i, asset));
    next.lemma_index_of(i, asset);
}

/// An operation that is refused leaves the ledger as it was.
pub proof fn lemma_refusal_changes_nothing(
    state: LedgerState,
    asset: Pubkey,
    from: Pubkey,
    to: Pubkey,
    location: String,
    planting_date: i64,
    amount: u64,
    observed: u64,
)
    ensures
        state.initialize(from).1 is Err ==> state.initialize(from).0 == state,
        state.issue(asset, to, location, planting_date).1 is Err ==> state.issue(
            asset,
            to,
            location,
            planting_date,
        ).0 == state,
        state.issue_at(observed, asset, to, location, planting_date).1 is Err ==> state.issue_at(
            observed,
            asset,
            to,
            location,
            planting_date,
        ).0 == state,
        state.transfer(asset, from, to, amount).1 is Err ==> state.transfer(
            asset,
            from,
            to,
            amount,
        ).0 == state,
{
}

/// The registry is created once. Whoever asks again, once it exists, is
/// refused with `AlreadyExists`, and the registry stays as it is.
pub proof fn lemma_initialize_only_once(state: LedgerState, first: Pubkey, second: Pubkey)
    ensures
        state.registry is Some ==> state.initialize(second) == (
            state,
            Err::<(), Error>(Error::Ledger(LedgerError::AlreadyExists)),
        ),
        state.initialize(first).1 is Ok ==> state.initialize(first).0.initialize(second) == (
            state.initialize(first).0,
            Err::<(), Error>(Error::Ledger(LedgerError::AlreadyExists)),
        ),
{
}

/// A registry that was just created has issued nothing, and is controlled by
/// whoever created it.
pub proof fn lemma_initialize_effects(state: LedgerState, authority: Pubkey)
    requires
        state.wf(),
        state.initialize(authority).1 is Ok,
    ensures
        state.registry is None,
        state.initialize(authority).0.wf(),
        state.initialize(authority).0.total() == Some(0u64),
        state.initialize(authority).0.registry.unwrap().authority == authority,
        state.initialize(authority).0.certificates.len() == 0,
{
}

/// What a successful issue does.
///
/// The asset was not on the ledger before. Afterwards the registry counts
/// exactly one certificate more and is controlled by the same authority; the
/// new certificate carries the new count as its number, the base impact
/// score, and the owner, location and date that were given; the owner holds
/// the one unit of the asset and nobody else holds any.
pub proof fn lemma_issue_effects(
    state: LedgerState,
    asset: Pubkey,
    owner: Pubkey,
    location: String,
    planting_date: i64,
)
    requires
        state.wf(),
        state.total() matches Some(total) ==> total < u64::MAX,
        state.issue(asset, owner, location, planting_date).1 is Ok,
    ensures
        ({
            let (next, done) = state.issue(asset, owner, location, planting_date);
            let total = state.total().unwrap();
            let record = next.metadata_of(asset).unwrap();
            &&& !state.knows(asset)
            &&& next.wf()
            &&& next.total() == Some((total + 1) as u64)
            &&& next.registry.unwrap().authority == state.registry.unwrap().authority
            &&& next.certificates.len() == state.certificates.len() + 1
            &&& done.unwrap().tree_id == total + 1
            &&& done.unwrap().owner == owner
            &&& done.unwrap().location == location
            &&& done.unwrap().planting_date == planting_date
            &&& next.knows(asset)
            &&& record.owner == owner
            &&& record.location == location
            &&& record.planting_date == planting_date
            &&& record.tree_id == total + 1
            &&& record.impact_score == BASE_IMPACT_SCORE
            &&& next.holder_of(asset) == Some(owner)
            &&& next.balance(asset, owner) == 1
            &&& forall|other: Pubkey| other != owner ==> #[trigger] next.balance(asset, other) == 0
        }),
{
    let next = state.issued(asset, owner, location, planting_date);
    let n = state.certificates.len() as int;
    state.lemma_issue_keeps_wf(asset, owner, location, planting_date);
    assert(!state.knows(asset)) by {
        if state.knows(asset) {
            let i = state.index_of(asset);
            assert(state.certificate_wf(i));
            assert(state.record_at(i, state.certificates[i].address));
        }
    }
    assert(next.holds_at(n, asset));
    next.lemma_index_of(n, asset);
}

/// The ledger records for an issue what [`mint_nft`](crate::instructions::mint_nft)
/// writes into the accounts that the ledger hands to it: the registry record
/// with the new count and the certificate record. The request to mint is for
/// one unit of the asset, to the owner, under the authority of the registry,
/// and the notification is the one that the issue answers with.
pub proof fn lemma_issue_runs_mint_nft(
    state: LedgerState,
    asset: Pubkey,
    owner: Pubkey,
    location: String,
    planting_date: i64,
    blank: NftMetadata,
)
    requires
        state.issue_refusal(asset, location, planting_date) is None,
    ensures
        ({
            let (address, bump) = spec_metadata_address(state.program_id, asset).unwrap();
            let accounts = MintNft {
                tree_guardian: state.registry.unwrap(),
                tree_guardian_key: state.registry_address,
                nft_mint: asset,
                nft_metadata: blank,
                nft_metadata_bump: bump,
                nft_token_account: owner,
                owner,
            };
            let written = minted_accounts(accounts, location, planting_date);
            let (next, done) = state.issue(asset, owner, location, planting_date);
            &&& mint_args_error(location@, planting_date) is None
            &&& next.registry == Some(written.tree_guardian)
            &&& next.certificates.last() == (Certificate {
                asset,
                address,
                metadata: written.nft_metadata,
                holder: owner,
            })
            &&& done == Ok::<NftMinted, Error>(minted_event(accounts, location, planting_date))
            &&& mint_request(accounts) == (MintTo {
                mint: asset,
                to: owner,
                authority: state.registry_address,
                amount: 1,
            })
        }),
{
}

/// An issue on the count that the registry shows is an issue like any other.
pub proof fn lemma_issue_at_on_the_count(
    state: LedgerState,
    asset: Pubkey,
    owner: Pubkey,
    location: String,
    planting_date: i64,
)
    requires
        state.registry is Some,
    ensures
        state.issue_at(state.total().unwrap(), asset, owner, location, planting_date)
            == state.issue(asset, owner, location, planting_date),
{
}

/// An issue leaves every other certificate alone: its record and its holder
/// are what they were.
pub proof fn lemma_issue_keeps_the_others(
    state: LedgerState,
    asset: Pubkey,
    owner: Pubkey,
    location: String,
    planting_date: i64,
    other: Pubkey,
)
    requires
        state.wf(),
        state.total() matches Some(total) ==> total < u64::MAX,
        other != asset,
    ensures
        ({
            let next = state.issue(asset, owner, location, planting_date).0;
            &&& next.knows(other) == state.knows(other)
            &&& next.metadata_of(other) == state.metadata_of(other)
            &&& next.holder_of(other) == state.holder_of(other)
        }),
{
    let next = state.issue(asset, owner, location, planting_date).0;
    state.lemma_issue_keeps_wf(asset, owner, location, planting_date);
    if state.issue_refusal(asset, location, planting_date) is None {
        if state.knows(other) {
            let i = state.index_of(other);
            assert(next.holds_at(i, other));
            next.lemma_index_of(i, other);
        } else if next.knows(other) {
            let j = next.index_of(other);
            assert(state.holds_at(j, other));
        }
    }
}

/// Certificates are numbered without gaps or repeats.
///
/// Start from a registry that has issued nothing and issue any number of
/// certificates, each with success. The registry then counts exactly that
/// many. The requests were answered with the numbers 1, 2, 3 and so on, in
/// their order, and the certificates carry these numbers, each in the place
/// of its request and with what the request gave.
pub proof fn lemma_issue_sequence(start: LedgerState, requests: Seq<IssueRequest>)
    requires
        start.wf(),
        start.total() == Some(0u64),
        requests.len() <= u64::MAX,
        all_issued(start, requests),
    ensures
        ({
            let end = issue_all(start, requests);
            &&& end.wf()
            &&& end.total() == Some(requests.len() as u64)
            &&& end.certificates.len() == requests.len()
            &&& forall|k: int|
                0 <= k < requests.len() ==> #[trigger] answer(start, requests, k) == Ok::<
                    NftMinted,
                    Error,
                >(
                    NftMinted {
                        owner: requests[k].owner,
                        tree_id: (k + 1) as u64,
                        location: requests[k].location,
                        planting_date: requests[k].planting_date,
                    },
                )
            &&& forall|i: int|
                0 <= i < requests.len() ==> {
                    &&& (#[trigger] end.certificates[i]).metadata.tree_id == i + 1
                    &&& end.certificates[i].asset == requests[i].asset
                    &&& end.certificates[i].holder == requests[i].owner
                    &&& end.certificates[i].metadata.owner == requests[i].owner
                    &&& end.certificates[i].metadata.location == requests[i].location
                    &&& end.certificates[i].metadata.planting_date == requests[i].planting_date
                    &&& end.certificates[i].metadata.impact_score == BASE_IMPACT_SCORE
                }
        }),
    decreases requests.len(),
{
    if requests.len() > 0 {
        let earlier = requests.drop_last();
        let last = requests.last();
        lemma_issue_sequence(start, earlier);
        let mid = issue_all(start, earlier);
        mid.lemma_issue_keeps_wf(last.asset, last.owner, last.location, last.planting_date);
        let end = issue_all(start, requests);
        assert forall|i: int| 0 <= i < requests.len() implies {
            &&& (#[trigger] end.certificates[i]).metadata.tree_id == i + 1
            &&& end.certificates[i].asset == requests[i].asset
            &&& end.certificates[i].holder == requests[i].owner
            &&& end.certificates[i].metadata.owner == requests[i].owner
            &&& end.certificates[i].metadata.location == requests[i].location
            &&& end.certificates[i].metadata.planting_date == requests[i].planting_date
            &&& end.certificates[i].metadata.impact_score == BASE_IMPACT_SCORE
        } by {
            if i < earlier.len() {
                assert(end.certificates[i] == mid.certificates[i]);
                assert(earlier[i] == requests[i]);
            }
        }
        assert forall|k: int| 0 <= k < requests.len() implies #[trigger] answer(
            start,
            requests,
            k,
        ) == Ok::<NftMinted, Error>(
            NftMinted {
                owner: requests[k].owner,
                tree_id: (k + 1) as u64,
                location: requests[k].location,
                planting_date: requests[k].planting_date,
            },
        ) by {
            if k < earlier.len() {
                assert(requests.take(k) == earlier.take(k));
                assert(earlier[k] == requests[k]);
                assert(answer(start, requests, k) == answer(start, earlier, k));
            } else {
                assert(requests.take(k) == earlier);
            }
        }
    }
}

/// In a sound ledger every number from one to the count belongs to exactly
/// one certificate: no two certificates carry the same number.
pub proof fn lemma_numbers_are_unique(state: LedgerState, i: int, j: int)
    requires
        state.wf(),
        0 <= i < state.certificates.len(),
        0 <= j < state.certificates.len(),
    ensures
        1 <= state.certificates[i].metadata.tree_id <= state.certificates.len(),
        state.certificates[i].metadata.tree_id == state.certificates[j].metadata.tree_id ==> i == j,
{
    assert(state.certificate_wf(i));
    assert(state.certificate_wf(j));
}

/// Issues on one ledger take turns.
///
/// Of two issues that both succeed, the later reads the count that the
/// earlier wrote, never the count that the earlier read. The two
/// certificates therefore carry different numbers, the later one the next
/// after the earlier.
pub proof fn lemma_issues_take_turns(state: LedgerState, first: IssueRequest, second: IssueRequest)
    requires
        state.wf(),
        state.total() matches Some(total) ==> total + 1 < u64::MAX,
        state.issue(first.asset, first.owner, first.location, first.planting_date).1 is Ok,
        state.issue(first.asset, first.owner, first.location, first.planting_date).0.issue(
            second.asset,
            second.owner,
            second.location,
            second.planting_date,
        ).1 is Ok,
    ensures
        ({
            let (mid, earlier) = state.issue(
                first.asset,
                first.owner,
                first.location,
                first.planting_date,
            );
            let (end, later) = mid.issue(
                second.asset,
                second.owner,
                second.location,
                second.planting_date,
            );
            let read = state.total().unwrap();
            &&& mid.total() == Some((read + 1) as u64)
            &&& mid.total() != state.total()
            &&& earlier.unwrap().tree_id == read + 1
            &&& later.unwrap().tree_id == read + 2
            &&& end.total() == Some((read + 2) as u64)
            &&& first.asset != second.asset
        }),
{
    let mid = state.issue(first.asset, first.owner, first.location, first.planting_date).0;
    lemma_issue_effects(state, first.asset, first.owner, first.location, first.planting_date);
    lemma_issue_effects(mid, second.asset, second.owner, second.location, second.planting_date);
}

/// One count serves one issue.
///
/// Let two requests both be made on the count that the registry shows, and
/// let the one that is served first succeed. The other is then refused, and
/// changes nothing: with `OrderingFailure` if its input is valid, as the
/// count has moved on, and else for its input. So of two certificates that
/// were to carry the same number, one is issued and the other is not.
pub proof fn lemma_one_issue_per_count(
    state: LedgerState,
    observed: u64,
    first: IssueRequest,
    second: IssueRequest,
)
    requires
        state.wf(),
        observed < u64::MAX,
        state.issue_at(
            observed,
            first.asset,
            first.owner,
            first.location,
            first.planting_date,
        ).1 is Ok,
    ensures
        ({
            let (mid, earlier) = state.issue_at(
                observed,
                first.asset,
                first.owner,
                first.location,
                first.planting_date,
            );
            let (end, later) = mid.issue_at(
                observed,
                second.asset,
                second.owner,
                second.location,
                second.planting_date,
            );
            &&& state.total() == Some(observed)
            &&& earlier.unwrap().tree_id == observed + 1
            &&& mid.total() == Some((observed + 1) as u64)
            &&& later is Err
            &&& end == mid
            &&& mint_args_error(second.location@, second.planting_date) is None ==> later == Err::<
                NftMinted,
                Error,
            >(Error::Ledger(LedgerError::OrderingFailure))
        }),
{
    lemma_issue_effects(state, first.asset, first.owner, first.location, first.planting_date);
}

/// Only single units move: any amount but one is refused with
/// `InvalidAmount`, whatever the ledger holds.
pub proof fn lemma_transfer_refuses_other_amounts(
    state: LedgerState,
    asset: Pubkey,
    from: Pubkey,
    to: Pubkey,
    amount: u64,
)
    requires
        amount != 1,
    ensures
        state.transfer(asset, from, to, amount) == (
            state,
            Err::<NftTransferred, Error>(
                Error::Validation(ErrorCode::InvalidAmount),
            ),
        ),
{
}

/// What a successful transfer does.
///
/// The giver held the unit before. Afterwards the receiver holds it and
/// nobody else does. The certificate record, with the owner it names, its
/// number and everything else in it, is what it was, and so is the registry.
pub proof fn lemma_transfer_effects(
    state: LedgerState,
    asset: Pubkey,
    from: Pubkey,
    to: Pubkey,
    amount: u64,
)
    requires
        state.wf(),
        state.transfer(asset, from, to, amount).1 is Ok,
    ensures
        ({
            let (next, done) = state.transfer(asset, from, to, amount);
            &&& amount == 1
            &&& next.wf()
            &&& state.balance(asset, from) == 1
            &&& next.balance(asset, to) == 1
            &&& from != to ==> next.balance(asset, from) == 0
            &&& forall|other: Pubkey| other != to ==> #[trigger] next.balance(asset, other) == 0
            &&& next.metadata_of(asset) == state.metadata_of(asset)
            &&& next.registry == state.registry
            &&& next.certificates.len() == state.certificates.len()
            &&& done.unwrap().tree_id == state.metadata_of(asset).unwrap().tree_id
            &&& done.unwrap().from == from
            &&& done.unwrap().to == to
            &&& done.unwrap().amount == 1
        }),
{
    let next = state.transferred(asset, to);
    let i = state.index_of(asset);
    state.lemma_transfer_keeps_wf(asset, from, to, amount);
    assert(next.holds_at(i, asset));
    next.lemma_index_of(i, asset);
}

/// The ledger answers a transfer with the notification that
/// [`transfer_nft`](crate::instructions::transfer_nft) makes of the accounts
/// that the ledger hands to it, and moves what that function asks to be
/// moved: one unit of the asset from the giver to the receiver, signed for by
/// the giver.
pub proof fn lemma_transfer_runs_transfer_nft(
    state: LedgerState,
    asset: Pubkey,
    from: Pubkey,
    to: Pubkey,
    amount: u64,
)
    requires
        state.transfer_refusal(asset, from, amount) is None,
    ensures
        ({
            let accounts = TransferNft {
                nft_metadata: state.metadata_of(asset).unwrap(),
                nft_mint: asset,
                from_token_account: from,
                to_token_account: to,
                from,
                to,
            };
            &&& transfer_args_error(amount) is None
            &&& state.transfer(asset, from, to, amount).1 == Ok::<NftTransferred, Error>(
                transferred_event(accounts, amount),
            )
            &&& transfer_request(accounts, amount) == (Transfer {
                mint: asset,
                from,
                to,
                authority: from,
                amount: 1,
            })
        }),
{
}

/// A transfer leaves every other asset alone: its record and its holder are
/// what they were.
pub proof fn lemma_transfer_keeps_the_others(
    state: LedgerState,
    asset: Pubkey,
    from: Pubkey,
    to: Pubkey,
    amount: u64,
    other: Pubkey,
)
    requires
        state.wf(),
        other != asset,
    ensures
        ({
            let next = state.transfer(asset, from, to, amount).0;
            &&& next.knows(other) == state.knows(other)
            &&& next.metadata_of(other) == state.metadata_of(other)
            &&& next.holder_of(other) == state.holder_of(other)
        }),
{
    let next = state.transfer(asset, from, to, amount).0;
    state.lemma_transfer_keeps_wf(asset, from, to, amount);
    if state.transfer_refusal(asset, from, amount) is None {
        if state.knows(other) {
            let i = state.index_of(other);
            assert(next.holds_at(i, other));
            next.lemma_index_of(i, other);
        } else if next.knows(other) {
            let j = next.index_of(other);
            assert(state.holds_at(j, other));
        }
    }
}

/// A unit moves once. After a transfer from one identity to another has
/// succeeded, the same transfer asked again is refused with
/// `InsufficientBalance`: the giver no longer holds the unit.
pub proof fn lemma_transfer_only_once(state: LedgerState, asset: Pubkey, from: Pubkey, to: Pubkey)
    requires
        state.wf(),
        from != to,
        state.transfer(asset, from, to, 1).1 is Ok,
    ensures
        state.transfer(asset, from, to, 1).0.transfer(asset, from, to, 1) == (
            state.transfer(asset, from, to, 1).0,
            Err::<NftTransferred, Error>(
                Error::Ledger(LedgerError::InsufficientBalance),
            ),
        ),
{
    lemma_transfer_effects(state, asset, from, to, 1);
    let next = state.transfer(asset, from, to, 1).0;
    let i = state.index_of(asset);
    assert(next.holds_at(i, asset));
}

} // verus!
