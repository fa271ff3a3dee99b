use vstd::prelude::*;

use crate::address::Address;
use crate::cast_nft_vote::record_error;
use crate::error::NftVoterError;
use crate::cast_nft_vote::{any_voted, batch_weight};
use crate::nft::{nft_weight, NftInfo};
use crate::registrar::Registrar;
use crate::voter_weight_record::aggregated_weight;
use crate::vote_receipt::{
    has_receipt, is_relinquished, receipts_unique, remaining_receipts, VoteReceipt,
    VoteReceiptStore,
};
use crate::voter_weight_record::VoterWeightRecord;

verus! {

/// Why relinquishing the votes of `nft_mints` on `proposal` is rejected, if it is.
pub open spec fn relinquish_error(
    registrar: Registrar,
    record: VoterWeightRecord,
    receipts: Seq<VoteReceipt>,
    voter: Address,
    proposal: Address,
    nft_mints: Seq<Address>,
) -> Option<NftVoterError> {
    if record_error(registrar, record, voter) is Some {
        record_error(registrar, record, voter)
    } else if exists|i: int|
        0 <= i < nft_mints.len() && !has_receipt(receipts, proposal, #[trigger] nft_mints[i]) {
        Some(NftVoterError::NftVoteRecordNotFound)
    } else if exists|k: int|
        0 <= k < receipts.len() && is_relinquished(#[trigger] receipts[k], proposal, nft_mints)
            && receipts[k].governing_token_owner != voter {
        Some(NftVoterError::InvalidTokenOwnerForNftVoteRecord)
    } else {
        None
    }
}

/// Whether `nft_mints` holds `mint`.
fn contains_mint(nft_mints: &Vec<Address>, mint: &Address) -> (r: bool)
    ensures
        r == nft_mints@.contains(*mint),
{
    let mut i: usize = 0;
    while i < nft_mints.len()
        invariant
            0 <= i <= nft_mints@.len(),
            forall|j: int| 0 <= j < i ==> nft_mints@[j] != *mint,
        decreases nft_mints@.len() - i,
    {
        if nft_mints[i] == *mint {
            return true;
        }
        i = i + 1;
    }
    false
}

/// Withdraws the votes of `nft_mints` on `proposal`: their receipts are
/// deleted, so that the NFTs may vote on it again. The voter weight record is
/// only checked, never changed, and weight already submitted stays submitted.
/// A rejected call changes nothing.
pub fn relinquish_nft_vote(
    registrar: &Registrar,
    record: &VoterWeightRecord,
    store: &mut VoteReceiptStore,
    voter: &Address,
    proposal: &Address,
    nft_mints: &Vec<Address>,
) -> (r: Result<(), NftVoterError>)
    requires
        old(store).wf(),
    ensures
        final(store).wf(),
        r is Err <==> relinquish_error(*registrar, *record, old(store)@, *voter, *proposal, nft_mints@) is Some,
        r matches Err(e) ==> Some(e) == relinquish_error(
            *registrar,
            *record,
            old(store)@,
            *voter,
            *proposal,
            nft_mints@,
        ) && final(store)@ == old(store)@,
        r is Ok ==> final(store)@ == remaining_receipts(old(store)@, *proposal, nft_mints@),
{
    if record.realm != registrar.realm {
        return Err(NftVoterError::InvalidVoterWeightRecordRealm);
    }
    if record.governing_token_mint != registrar.governing_token_mint {
        return Err(NftVoterError::InvalidVoterWeightRecordMint);
    }
    if record.governing_token_owner != *voter {
        return Err(NftVoterError::InvalidTokenOwnerForVoterWeightRecord);
    }
    let mut i: usize = 0;
    while i < nft_mints.len()
        invariant
            store@ == old(store)@,
            old(store).wf(),
            record_error(*registrar, *record, *voter) is None,
            0 <= i <= nft_mints@.len(),
            forall|j: int| 0 <= j < i ==> has_receipt(store@, *proposal, #[trigger] nft_mints@[j]),
        decreases nft_mints@.len() - i,
    {
        if !store.contains(proposal, &nft_mints[i]) {
            proof {
                assert(!has_receipt(store@, *proposal, nft_mints@[i as int]));
            }
            return Err(NftVoterError::NftVoteRecordNotFound);
        }
        i = i + 1;
    }
    let mut k: usize = 0;
    while k < store.receipts.len()
        invariant
            store@ == old(store)@,
            old(store).wf(),
            record_error(*registrar, *record, *voter) is None,
            forall|j: int| 0 <= j < nft_mints@.len() ==> has_receipt(store@, *proposal, #[trigger] nft_mints@[j]),
            0 <= k <= store@.len(),
            forall|j: int|
                0 <= j < k && is_relinquished(#[trigger] store@[j], *proposal, nft_mints@)
                    ==> store@[j].governing_token_owner == *voter,
        decreases store@.len() - k,
    {
        let receipt = store.receipts[k];
        if receipt.proposal == *proposal && contains_mint(nft_mints, &receipt.nft_mint)
            && receipt.governing_token_owner != *voter {
            return Err(NftVoterError::InvalidTokenOwnerForNftVoteRecord);
        }
        k = k + 1;
    }

    let ghost old_receipts = store@;
    let ghost keep = |r: VoteReceipt| !is_relinquished(r, *proposal, nft_mints@);
    let mut kept: Vec<VoteReceipt> = Vec::new();
    let mut k: usize = 0;
    while k < store.receipts.len()
        invariant
            store@ == old_receipts,
            receipts_unique(old_receipts),
            keep == (|r: VoteReceipt| !is_relinquished(r, *proposal, nft_mints@)),
            0 <= k <= old_receipts.len(),
            kept@ == old_receipts.take(k as int).filter(keep),
            receipts_unique(kept@),
            forall|a: int|
                0 <= a < kept@.len() ==> exists|j: int|
                    0 <= j < k && old_receipts[j] == #[trigger] kept@[a],
        decreases old_receipts.len() - k,
    {
        let receipt = store.receipts[k];
        proof {
            reveal(Seq::filter);
            assert(old_receipts.take(k + 1).drop_last() =~= old_receipts.take(k as int));
        }
        if !(receipt.proposal == *proposal && contains_mint(nft_mints, &receipt.nft_mint)) {
            proof {
                assert forall|a: int| 0 <= a < kept@.len() implies !(kept@[a].proposal
                    == receipt.proposal && kept@[a].nft_mint == receipt.nft_mint) by {
                    let j = choose|j: int| 0 <= j < k && old_receipts[j] == kept@[a];
                    assert(j != k);
                }
            }
            kept.push(receipt);
            proof {
                assert forall|a: int| 0 <= a < kept@.len() implies exists|j: int|
                    0 <= j < k + 1 && old_receipts[j] == #[trigger] kept@[a] by {
                    if a == kept@.len() - 1 {
                        assert(old_receipts[k as int] == kept@[a]);
                    } else {
                        let j = choose|j: int| 0 <= j < k && old_receipts[j] == kept@[a];
                        assert(old_receipts[j] == kept@[a]);
                    }
                }
            }
        }
        k = k + 1;
    }
    proof {
        assert(old_receipts.take(k as int) =~= old_receipts);
    }
    store.receipts = kept;
    Ok(())
}

/// Relinquishing an NFT's vote frees it to vote on the proposal again, and a
/// cast of it alone in a later time unit attests its own weight, not that
/// weight added to the one attested before.
pub proof fn lemma_relinquish_then_recast(
    registrar: Registrar,
    record: VoterWeightRecord,
    receipts: Seq<VoteReceipt>,
    proposal: Address,
    nft_mints: Seq<Address>,
    nft: NftInfo,
    slot: u64,
    later_slot: u64,
)
    requires
        nft_mints.contains(nft.mint),
        record.voter_weight_expiry == Some(slot),
        slot < later_slot,
    ensures
        !has_receipt(remaining_receipts(receipts, proposal, nft_mints), proposal, nft.mint),
        !any_voted(remaining_receipts(receipts, proposal, nft_mints), proposal, seq![nft]),
        aggregated_weight(record, proposal, later_slot, batch_weight(registrar, seq![nft]))
            == nft_weight(registrar, nft),
{
    let rest = remaining_receipts(receipts, proposal, nft_mints);
    let keep = |r: VoteReceipt| !is_relinquished(r, proposal, nft_mints);
    assert forall|i: int| 0 <= i < rest.len() implies !(rest[i].proposal == proposal
        && rest[i].nft_mint == nft.mint) by {
        receipts.lemma_filter_pred(keep, i);
    }
    let batch = seq![nft];
    assert(batch.drop_last() =~= Seq::<NftInfo>::empty());
    assert(batch_weight(registrar, batch.drop_last()) == 0);
    assert(batch.last() == nft);
}

} // verus!
