use vstd::prelude::*;

use crate::address::Address;
use crate::error::NftVoterError;
use crate::nft::{nft_error, nft_weight, resolve_nft_vote_weight, NftInfo};
use crate::registrar::Registrar;
use crate::vote_receipt::{has_receipt, receipts_unique, VoteReceipt, VoteReceiptStore};
use crate::voter_weight_record::{
    aggregated_weight, cast_vote_record, VoterWeightAction, VoterWeightRecord,
};

verus! {

/// The most NFTs one cast accepts; larger holdings vote over several casts.
pub const MAX_NFTS_PER_CALL: usize = 5;

/// One ranked choice of an approving vote.
#[derive(Clone, Copy, Debug, PartialEq, Eq, Structural)]
pub struct VoteChoice {
    pub rank: u8,
    pub weight_percentage: u8,
}

/// The vote handed to the governance program.
#[derive(Clone, Debug)]
pub enum Vote {
    Approve(Vec<VoteChoice>),
    Deny,
    Abstain,
    Veto,
}

/// A deny or veto vote, cast against one proposal transaction.
pub open spec fn is_phase_vote(vote: Vote) -> bool {
    vote is Deny || vote is Veto
}

impl Vote {
    pub fn is_phase_vote(&self) -> (r: bool)
        ensures
            r == is_phase_vote(*self),
    {
        match self {
            Vote::Deny => true,
            Vote::Veto => true,
            _ => false,
        }
    }
}

/// What the caller asks of the governance program along with the cast.
#[derive(Clone, Debug)]
pub struct CastVoteArgs {
    /// Whether the vote is submitted to the governance program in the same call.
    pub cast_spl_gov_vote: bool,
    pub vote_type: Vote,
}

/// A vote for the governance program to record, with the weight attested for it.
#[derive(Clone, Debug)]
pub struct VoteSubmission {
    pub proposal: Address,
    pub proposal_transaction: Option<Address>,
    pub voter_weight: u64,
    pub vote: Vote,
}

/// What a successful cast produced.
#[derive(Clone, Debug)]
pub struct CastOutcome {
    pub receipts: Vec<VoteReceipt>,
    pub submission: Option<VoteSubmission>,
}

/// Whether the cast submits a deny or veto vote.
pub open spec fn submits_phase_vote(args: Option<CastVoteArgs>) -> bool {
    match args {
        Some(a) => a.cast_spl_gov_vote && is_phase_vote(a.vote_type),
        None => false,
    }
}

/// Why `record` may not be used by `voter` under `registrar`, if it may not.
pub open spec fn record_error(registrar: Registrar, record: VoterWeightRecord, voter: Address) -> Option<
    NftVoterError,
> {
    if record.realm != registrar.realm {
        Some(NftVoterError::InvalidVoterWeightRecordRealm)
    } else if record.governing_token_mint != registrar.governing_token_mint {
        Some(NftVoterError::InvalidVoterWeightRecordMint)
    } else if record.governing_token_owner != voter {
        Some(NftVoterError::InvalidTokenOwnerForVoterWeightRecord)
    } else {
        None
    }
}

/// Whether two NFTs of the batch share a mint.
pub open spec fn has_duplicate_mint(nfts: Seq<NftInfo>) -> bool {
    exists|i: int, j: int| 0 <= i < j < nfts.len() && nfts[i].mint == nfts[j].mint
}

/// The error of the first NFT of the batch that may not vote, if any.
pub open spec fn batch_nft_error(registrar: Registrar, voter: Address, nfts: Seq<NftInfo>) -> Option<
    NftVoterError,
>
    decreases nfts.len(),
{
    if nfts.len() == 0 {
        None
    } else {
        match batch_nft_error(registrar, voter, nfts.drop_last()) {
            Some(e) => Some(e),
            None => nft_error(registrar, voter, nfts.last()),
        }
    }
}

/// The total weight of the batch.
pub open spec fn batch_weight(registrar: Registrar, nfts: Seq<NftInfo>) -> int
    decreases nfts.len(),
{
    if nfts.len() == 0 {
        0
    } else {
        batch_weight(registrar, nfts.drop_last()) + nft_weight(registrar, nfts.last())
    }
}

/// Whether an NFT of the batch has already voted on `proposal`.
pub open spec fn any_voted(receipts: Seq<VoteReceipt>, proposal: Address, nfts: Seq<NftInfo>) -> bool {
    exists|i: int| 0 <= i < nfts.len() && has_receipt(receipts, proposal, #[trigger] nfts[i].mint)
}

/// Why a cast is rejected, if it is: the checks in the order they are made.
pub open spec fn cast_error(
    registrar: Registrar,
    record: VoterWeightRecord,
    receipts: Seq<VoteReceipt>,
    voter: Address,
    proposal: Address,
    nfts: Seq<NftInfo>,
    proposal_transaction: Option<Address>,
    args: Option<CastVoteArgs>,
    slot: u64,
) -> Option<NftVoterError> {
    if record_error(registrar, record, voter) is Some {
        record_error(registrar, record, voter)
    } else if nfts.len() == 0 {
        Some(NftVoterError::NoNftsProvided)
    } else if nfts.len() > MAX_NFTS_PER_CALL {
        Some(NftVoterError::TooManyNfts)
    } else if submits_phase_vote(args) && proposal_transaction is None {
        Some(NftVoterError::MustIncludeProposalTransactionForPhaseVotes)
    } else if has_duplicate_mint(nfts) {
        Some(NftVoterError::DuplicatedNftDetected)
    } else if batch_nft_error(registrar, voter, nfts) is Some {
        batch_nft_error(registrar, voter, nfts)
    } else if any_voted(receipts, proposal, nfts) {
        Some(NftVoterError::NftAlreadyVoted)
    } else if aggregated_weight(record, proposal, slot, batch_weight(registrar, nfts)) > u64::MAX {
        Some(NftVoterError::VoterWeightOverflow)
    } else {
        None
    }
}

/// The receipt a cast creates for `nft`.
pub open spec fn receipt_for(registrar: Registrar, voter: Address, proposal: Address, nft: NftInfo) -> VoteReceipt {
    VoteReceipt {
        proposal,
        nft_mint: nft.mint,
        governing_token_owner: voter,
        weight: nft_weight(registrar, nft),
    }
}

/// The receipts a cast creates, one per NFT in batch order.
pub open spec fn new_receipts(
    registrar: Registrar,
    voter: Address,
    proposal: Address,
    nfts: Seq<NftInfo>,
) -> Seq<VoteReceipt> {
    Seq::new(nfts.len(), |i: int| receipt_for(registrar, voter, proposal, nfts[i]))
}

/// The record after a successful cast that attests `weight`: a submitted deny
/// or veto vote consumes the weight entirely.
pub open spec fn record_after_cast(
    record: VoterWeightRecord,
    proposal: Address,
    slot: u64,
    weight: int,
    args: Option<CastVoteArgs>,
) -> VoterWeightRecord {
    cast_vote_record(
        record,
        proposal,
        slot,
        if submits_phase_vote(args) {
            0
        } else {
            weight as u64
        },
    )
}

/// The vote handed to the governance program by a successful cast that attests `weight`.
pub open spec fn submission_after_cast(
    proposal: Address,
    proposal_transaction: Option<Address>,
    weight: int,
    args: Option<CastVoteArgs>,
) -> Option<VoteSubmission> {
    match args {
        Some(a) => if a.cast_spl_gov_vote {
            Some(
                VoteSubmission {
                    proposal,
                    proposal_transaction,
                    voter_weight: weight as u64,
                    vote: a.vote_type,
                },
            )
        } else {
            None
        },
        None => None,
    }
}

/// Whether two NFTs of the batch share a mint.
fn contains_duplicate_mint(nfts: &Vec<NftInfo>) -> (r: bool)
    ensures
        r == has_duplicate_mint(nfts@),
{
    let mut j: usize = 0;
    while j < nfts.len()
        invariant
            0 <= j <= nfts@.len(),
            forall|a: int, b: int| 0 <= a < b < j ==> nfts@[a].mint != nfts@[b].mint,
        decreases nfts@.len() - j,
    {
        let mut i: usize = 0;
        while i < j
            invariant
                0 <= i <= j < nfts@.len(),
                forall|a: int| 0 <= a < i ==> nfts@[a].mint != nfts@[j as int].mint,
            decreases j - i,
        {
            if nfts[i].mint == nfts[j].mint {
                return true;
            }
            i = i + 1;
        }
        j = j + 1;
    }
    false
}

/// Checks that every NFT of the batch may vote, and returns their weights and
/// their total.
fn resolve_batch(registrar: &Registrar, voter: &Address, nfts: &Vec<NftInfo>) -> (r: Result<
    (Vec<u64>, u128),
    NftVoterError,
>)
    requires
        nfts@.len() <= MAX_NFTS_PER_CALL,
    ensures
        r is Err <==> batch_nft_error(*registrar, *voter, nfts@) is Some,
        r matches Err(e) ==> batch_nft_error(*registrar, *voter, nfts@) == Some(e),
        r matches Ok((weights, total)) ==> {
            &&& weights@.len() == nfts@.len()
            &&& forall|k: int|
                0 <= k < nfts@.len() ==> weights@[k] == nft_weight(*registrar, #[trigger] nfts@[k])
            &&& total == batch_weight(*registrar, nfts@)
            &&& total <= MAX_NFTS_PER_CALL * 0xffff_ffff_ffff_ffff
        },
{
    let mut weights: Vec<u64> = Vec::new();
    let mut total: u128 = 0;
    let mut i: usize = 0;
    while i < nfts.len()
        invariant
            0 <= i <= nfts@.len() <= MAX_NFTS_PER_CALL,
            batch_nft_error(*registrar, *voter, nfts@.take(i as int)) is None,
            weights@.len() == i,
            forall|k: int| 0 <= k < i ==> weights@[k] == nft_weight(*registrar, #[trigger] nfts@[k]),
            total == batch_weight(*registrar, nfts@.take(i as int)),
            total <= i * 0xffff_ffff_ffff_ffff,
        decreases nfts@.len() - i,
    {
        proof {
            assert(nfts@.take(i + 1).drop_last() =~= nfts@.take(i as int));
        }
        match resolve_nft_vote_weight(registrar, voter, &nfts[i]) {
            Ok(weight) => {
                weights.push(weight);
                total = total + weight as u128;
            },
            Err(e) => {
                proof {
                    lemma_batch_nft_error_prefix(*registrar, *voter, nfts@, i + 1);
                }
                return Err(e);
            },
        }
        i = i + 1;
    }
    proof {
        assert(nfts@.take(i as int) =~= nfts@);
    }
    Ok((weights, total))
}

/// Whether an NFT of the batch has already voted on `proposal`.
fn any_nft_voted(store: &VoteReceiptStore, proposal: &Address, nfts: &Vec<NftInfo>) -> (r: bool)
    ensures
        r == any_voted(store@, *proposal, nfts@),
{
    let mut i: usize = 0;
    while i < nfts.len()
        invariant
            0 <= i <= nfts@.len(),
            forall|k: int| 0 <= k < i ==> !has_receipt(store@, *proposal, #[trigger] nfts@[k].mint),
        decreases nfts@.len() - i,
    {
        if store.contains(proposal, &nfts[i].mint) {
            return true;
        }
        i = i + 1;
    }
    false
}

/// An error within a prefix of the batch is the batch's first error.
pub proof fn lemma_batch_nft_error_prefix(
    registrar: Registrar,
    voter: Address,
    nfts: Seq<NftInfo>,
    n: int,
)
    requires
        0 <= n <= nfts.len(),
        batch_nft_error(registrar, voter, nfts.take(n)) is Some,
    ensures
        batch_nft_error(registrar, voter, nfts) == batch_nft_error(registrar, voter, nfts.take(n)),
    decreases nfts.len(),
{
    if n < nfts.len() {
        assert(nfts.drop_last().take(n) =~= nfts.take(n));
        lemma_batch_nft_error_prefix(registrar, voter, nfts.drop_last(), n);
    } else {
        assert(nfts.take(n) =~= nfts);
    }
}

/// Casts the weight of a batch of NFTs on `proposal` in the time unit
/// `current_slot`.
///
/// The checks of `cast_error` come first, in order; a rejected cast changes
/// nothing. A successful one stores one receipt per NFT, attests for a vote on
/// `proposal` in `current_slot` the batch's weight, added to the record's
/// weight where that is still fresh for the same vote, and hands the vote to
/// submit, if asked for, with that weight. A submitted deny or veto vote
/// leaves the record's weight at 0.
pub fn cast_nft_vote(
    registrar: &Registrar,
    record: &mut VoterWeightRecord,
    store: &mut VoteReceiptStore,
    voter: &Address,
    proposal: &Address,
    nfts: &Vec<NftInfo>,
    proposal_transaction: Option<Address>,
    args: Option<CastVoteArgs>,
    current_slot: u64,
) -> (r: Result<CastOutcome, NftVoterError>)
    requires
        old(store).wf(),
    ensures
        final(store).wf(),
        r is Err <==> cast_error(
            *registrar,
            *old(record),
            old(store)@,
            *voter,
            *proposal,
            nfts@,
            proposal_transaction,
            args,
            current_slot,
        ) is Some,
        r matches Err(e) ==> {
            &&& Some(e) == cast_error(
                *registrar,
                *old(record),
                old(store)@,
                *voter,
                *proposal,
                nfts@,
                proposal_transaction,
                args,
                current_slot,
            )
            &&& *final(record) == *old(record)
            &&& final(store)@ == old(store)@
        },
        r matches Ok(outcome) ==> {
            let weight = aggregated_weight(
                *old(record),
                *proposal,
                current_slot,
                batch_weight(*registrar, nfts@),
            );
            &&& outcome.receipts@ == new_receipts(*registrar, *voter, *proposal, nfts@)
            &&& final(store)@ == old(store)@ + outcome.receipts@
            &&& *final(record) == record_after_cast(
                *old(record),
                *proposal,
                current_slot,
                weight,
                args,
            )
            &&& outcome.submission == submission_after_cast(
                *proposal,
                proposal_transaction,
                weight,
                args,
            )
            &&& submits_phase_vote(args) ==> final(record).voter_weight == 0
        },
        submits_phase_vote(args) && proposal_transaction is None ==> {
            &&& r is Err
            &&& *final(record) == *old(record)
            &&& final(store)@ == old(store)@
        },
{
    if record.realm != registrar.realm {
        return Err(NftVoterError::InvalidVoterWeightRecordRealm);
    }
    if record.governing_token_mint != registrar.governing_token_mint {
        return Err(NftVoterError::InvalidVoterWeightRecordMint);
    }
    if record.governing_token_owner != *voter {
        return Err(NftVoterError::InvalidTokenOwnerForVoterWeightRecord);
    }
    if nfts.len() == 0 {
        return Err(NftVoterError::NoNftsProvided);
    }
    if nfts.len() > MAX_NFTS_PER_CALL {
        return Err(NftVoterError::TooManyNfts);
    }
    let phase_vote = match &args {
        Some(a) => a.cast_spl_gov_vote && a.vote_type.is_phase_vote(),
        None => false,
    };
    if phase_vote && proposal_transaction.is_none() {
        return Err(NftVoterError::MustIncludeProposalTransactionForPhaseVotes);
    }
    if contains_duplicate_mint(nfts) {
        return Err(NftVoterError::DuplicatedNftDetected);
    }
    let (weights, total) = match resolve_batch(registrar, voter, nfts) {
        Ok(resolved) => resolved,
        Err(e) => {
            return Err(e);
        },
    };
    if any_nft_voted(store, proposal, nfts) {
        return Err(NftVoterError::NftAlreadyVoted);
    }
    let fresh = record.is_fresh_cast(proposal, current_slot);
    let weight: u128 = if fresh {
        record.voter_weight as u128 + total
    } else {
        total
    };
    if weight > u64::MAX as u128 {
        return Err(NftVoterError::VoterWeightOverflow);
    }
    let weight = weight as u64;

    let ghost old_receipts = store@;
    let ghost expected = new_receipts(*registrar, *voter, *proposal, nfts@);
    let mut receipts: Vec<VoteReceipt> = Vec::new();
    let mut i: usize = 0;
    while i < nfts.len()
        invariant
            0 <= i <= nfts@.len(),
            weights@.len() == nfts@.len(),
            forall|k: int|
                0 <= k < nfts@.len() ==> weights@[k] == nft_weight(*registrar, #[trigger] nfts@[k]),
            expected == new_receipts(*registrar, *voter, *proposal, nfts@),
            receipts@ == expected.take(i as int),
            store@ == old_receipts + receipts@,
        decreases nfts@.len() - i,
    {
        let receipt = VoteReceipt {
            proposal: *proposal,
            nft_mint: nfts[i].mint,
            governing_token_owner: *voter,
            weight: weights[i],
        };
        store.receipts.push(receipt);
        receipts.push(receipt);
        proof {
            assert(expected.take(i + 1) =~= expected.take(i as int).push(receipt));
        }
        i = i + 1;
    }
    proof {
        assert(expected.take(i as int) =~= expected);
        lemma_cast_keeps_receipts_unique(*registrar, *voter, *proposal, nfts@, old_receipts);
    }

    record.voter_weight = if phase_vote {
        0
    } else {
        weight
    };
    record.voter_weight_expiry = Some(current_slot);
    record.weight_action = Some(VoterWeightAction::CastVote);
    record.weight_action_target = Some(*proposal);

    let submission = match args {
        Some(a) => if a.cast_spl_gov_vote {
            Some(
                VoteSubmission {
                    proposal: *proposal,
                    proposal_transaction,
                    voter_weight: weight,
                    vote: a.vote_type,
                },
            )
        } else {
            None
        },
        None => None,
    };
    Ok(CastOutcome { receipts, submission })
}

/// Adding the receipts of a batch of distinct NFTs, none of which has voted on
/// `proposal`, keeps the receipts unique.
pub proof fn lemma_cast_keeps_receipts_unique(
    registrar: Registrar,
    voter: Address,
    proposal: Address,
    nfts: Seq<NftInfo>,
    receipts: Seq<VoteReceipt>,
)
    requires
        receipts_unique(receipts),
        !has_duplicate_mint(nfts),
        !any_voted(receipts, proposal, nfts),
    ensures
        receipts_unique(receipts + new_receipts(registrar, voter, proposal, nfts)),
{
    let added = new_receipts(registrar, voter, proposal, nfts);
    let all = receipts + added;
    assert forall|i: int, j: int|
        0 <= i < all.len() && 0 <= j < all.len() && i != j implies !(all[i].proposal
        == all[j].proposal && all[i].nft_mint == all[j].nft_mint) by {
        if i >= receipts.len() && j < receipts.len() {
            let k = i - receipts.len();
            assert(all[j].proposal == receipts[j].proposal);
            if all[i].proposal == all[j].proposal && all[i].nft_mint == all[j].nft_mint {
                assert(has_receipt(receipts, proposal, nfts[k].mint));
            }
        } else if i < receipts.len() && j >= receipts.len() {
            let k = j - receipts.len();
            if all[i].proposal == all[j].proposal && all[i].nft_mint == all[j].nft_mint {
                assert(has_receipt(receipts, proposal, nfts[k].mint));
            }
        } else if i >= receipts.len() && j >= receipts.len() {
            let a = i - receipts.len();
            let b = j - receipts.len();
            if a < b {
                assert(nfts[a].mint != nfts[b].mint);
            } else {
                assert(nfts[b].mint != nfts[a].mint);
            }
        }
    }
}

/// A batch in which some NFT may not vote is rejected as a whole.
pub proof fn lemma_batch_nft_error_some(
    registrar: Registrar,
    voter: Address,
    nfts: Seq<NftInfo>,
    i: int,
)
    requires
        0 <= i < nfts.len(),
        nft_error(registrar, voter, nfts[i]) is Some,
    ensures
        batch_nft_error(registrar, voter, nfts) is Some,
    decreases nfts.len(),
{
    if i < nfts.len() - 1 {
        lemma_batch_nft_error_some(registrar, voter, nfts.drop_last(), i);
    }
}

/// A batch that holds an NFT that may not vote, or one NFT twice, is rejected;
/// a rejected cast stores no receipt and leaves the record as it was (see the
/// contract of `cast_nft_vote`).
pub proof fn lemma_invalid_nft_rejects_batch(
    registrar: Registrar,
    record: VoterWeightRecord,
    receipts: Seq<VoteReceipt>,
    voter: Address,
    proposal: Address,
    nfts: Seq<NftInfo>,
    proposal_transaction: Option<Address>,
    args: Option<CastVoteArgs>,
    slot: u64,
    i: int,
)
    requires
        0 <= i < nfts.len(),
        nft_error(registrar, voter, nfts[i]) is Some || exists|j: int|
            0 <= j < nfts.len() && j != i && nfts[j].mint == nfts[i].mint,
    ensures
        cast_error(
            registrar,
            record,
            receipts,
            voter,
            proposal,
            nfts,
            proposal_transaction,
            args,
            slot,
        ) is Some,
{
    if nft_error(registrar, voter, nfts[i]) is Some {
        lemma_batch_nft_error_some(registrar, voter, nfts, i);
    } else {
        let j = choose|j: int| 0 <= j < nfts.len() && j != i && nfts[j].mint == nfts[i].mint;
        if j < i {
            assert(nfts[j].mint == nfts[i].mint);
        } else {
            assert(nfts[i].mint == nfts[j].mint);
        }
        assert(has_duplicate_mint(nfts));
    }
}

/// Once a cast on `proposal` has stored the receipts of `first`, no later cast
/// on `proposal` of a batch that shares an NFT with `first` succeeds; where it
/// passes the checks made before, it is rejected as already voted.
pub proof fn lemma_no_second_vote(
    registrar: Registrar,
    voter: Address,
    proposal: Address,
    first: Seq<NftInfo>,
    receipts: Seq<VoteReceipt>,
    record: VoterWeightRecord,
    second_voter: Address,
    second: Seq<NftInfo>,
    proposal_transaction: Option<Address>,
    args: Option<CastVoteArgs>,
    slot: u64,
    i: int,
    j: int,
)
    requires
        0 <= i < first.len(),
        0 <= j < second.len(),
        first[i].mint == second[j].mint,
    ensures
        ({
            let after = receipts + new_receipts(registrar, voter, proposal, first);
            let e = cast_error(
                registrar,
                record,
                after,
                second_voter,
                proposal,
                second,
                proposal_transaction,
                args,
                slot,
            );
            &&& e is Some
            &&& e != Some(NftVoterError::NftAlreadyVoted) ==> {
                ||| record_error(registrar, record, second_voter) is Some
                ||| second.len() > MAX_NFTS_PER_CALL
                ||| submits_phase_vote(args) && proposal_transaction is None
                ||| has_duplicate_mint(second)
                ||| batch_nft_error(registrar, second_voter, second) is Some
            }
        }),
{
    let added = new_receipts(registrar, voter, proposal, first);
    let after = receipts + added;
    assert(after[receipts.len() + i] == added[i]);
    assert(has_receipt(after, proposal, second[j].mint));
    assert(any_voted(after, proposal, second));
}

} // verus!
