use vstd::prelude::*;

use crate::address::Address;

verus! {

/// The governance action a voter weight may be used for.
#[derive(Clone, Copy, Debug, PartialEq, Eq, Structural)]
pub enum VoterWeightAction {
    CastVote,
    CommentProposal,
    CreateGovernance,
    CreateProposal,
    SignOffProposal,
}

/// The voter weight attested for one voter of one registrar.
///
/// The weight is authoritative only in the time unit `voter_weight_expiry`,
/// and only for `weight_action` on `weight_action_target`; `None` for both of
/// these means any action on any target.
#[derive(Clone, Copy, Debug)]
pub struct VoterWeightRecord {
    pub realm: Address,
    pub governing_token_mint: Address,
    pub governing_token_owner: Address,
    pub voter_weight: u64,
    pub voter_weight_expiry: Option<u64>,
    pub weight_action: Option<VoterWeightAction>,
    pub weight_action_target: Option<Address>,
}

/// Whether the record still holds a weight cast on `proposal` in the time unit `slot`.
pub open spec fn is_fresh_cast_on(record: VoterWeightRecord, proposal: Address, slot: u64) -> bool {
    &&& record.voter_weight_expiry == Some(slot)
    &&& record.weight_action == Some(VoterWeightAction::CastVote)
    &&& record.weight_action_target == Some(proposal)
}

/// The weight a cast of total `batch_weight` on `proposal` in `slot` attests:
/// the batch is added to a weight that is still fresh for the same action and
/// target, and replaces any other.
pub open spec fn aggregated_weight(
    record: VoterWeightRecord,
    proposal: Address,
    slot: u64,
    batch_weight: int,
) -> int {
    if is_fresh_cast_on(record, proposal, slot) {
        record.voter_weight + batch_weight
    } else {
        batch_weight
    }
}

/// The record after attesting `weight` for a vote on `proposal` in `slot`.
pub open spec fn cast_vote_record(
    record: VoterWeightRecord,
    proposal: Address,
    slot: u64,
    weight: u64,
) -> VoterWeightRecord {
    VoterWeightRecord {
        voter_weight: weight,
        voter_weight_expiry: Some(slot),
        weight_action: Some(VoterWeightAction::CastVote),
        weight_action_target: Some(proposal),
        ..record
    }
}

impl VoterWeightRecord {
    /// A record of `governing_token_owner` that has never been computed.
    pub fn new(realm: Address, governing_token_mint: Address, governing_token_owner: Address) -> (r:
        VoterWeightRecord)
        ensures
            r.realm == realm,
            r.governing_token_mint == governing_token_mint,
            r.governing_token_owner == governing_token_owner,
            r.voter_weight == 0,
            r.voter_weight_expiry is None,
            r.weight_action is None,
            r.weight_action_target is None,
    {
        VoterWeightRecord {
            realm,
            governing_token_mint,
            governing_token_owner,
            voter_weight: 0,
            voter_weight_expiry: None,
            weight_action: None,
            weight_action_target: None,
        }
    }

    /// Whether the record still holds a weight cast on `proposal` in `slot`.
    pub fn is_fresh_cast(&self, proposal: &Address, slot: u64) -> (r: bool)
        ensures
            r == is_fresh_cast_on(*self, *proposal, slot),
    {
        let same_slot = match self.voter_weight_expiry {
            Some(expiry) => expiry == slot,
            None => false,
        };
        let same_action = match self.weight_action {
            Some(action) => action == VoterWeightAction::CastVote,
            None => false,
        };
        let same_target = match self.weight_action_target {
            Some(target) => target == *proposal,
            None => false,
        };
        same_slot && same_action && same_target
    }

    /// The weight a cast of `batch_weight` on `proposal` in `slot` attests, or
    /// `None` where it does not fit in 64 bits.
    pub fn aggregate(&self, proposal: &Address, slot: u64, batch_weight: u64) -> (r: Option<u64>)
        ensures
            r is Some <==> aggregated_weight(*self, *proposal, slot, batch_weight as int) <= u64::MAX,
            r matches Some(w) ==> w == aggregated_weight(*self, *proposal, slot, batch_weight as int),
    {
        if self.is_fresh_cast(proposal, slot) {
            self.voter_weight.checked_add(batch_weight)
        } else {
            Some(batch_weight)
        }
    }
}

/// The accumulate-or-reset rule, cell by cell: a record never computed, or
/// computed in another time unit, or for another action or target, is replaced
/// by the new batch; a record computed in the same time unit for a vote on the
/// same proposal has the batch added to it.
pub proof fn lemma_aggregation_table(
    record: VoterWeightRecord,
    proposal: Address,
    slot: u64,
    batch_weight: int,
)
    ensures
        record.voter_weight_expiry is None ==> aggregated_weight(record, proposal, slot, batch_weight)
            == batch_weight,
        record.voter_weight_expiry != Some(slot) ==> aggregated_weight(
            record,
            proposal,
            slot,
            batch_weight,
        ) == batch_weight,
        record.weight_action != Some(VoterWeightAction::CastVote) ==> aggregated_weight(
            record,
            proposal,
            slot,
            batch_weight,
        ) == batch_weight,
        record.weight_action_target != Some(proposal) ==> aggregated_weight(
            record,
            proposal,
            slot,
            batch_weight,
        ) == batch_weight,
        is_fresh_cast_on(record, proposal, slot) ==> aggregated_weight(
            record,
            proposal,
            slot,
            batch_weight,
        ) == record.voter_weight + batch_weight,
{
}

/// After a cast that attests `weight` on `proposal` in `slot`, a second cast
/// on the same proposal in the same time unit adds its batch to `weight`,
/// while one in another time unit, or on another proposal, attests its batch
/// alone.
pub proof fn lemma_second_cast(
    record: VoterWeightRecord,
    proposal: Address,
    slot: u64,
    weight: u64,
    batch_weight: int,
    other_slot: u64,
    other_proposal: Address,
)
    requires
        other_slot != slot,
        other_proposal != proposal,
    ensures
        aggregated_weight(cast_vote_record(record, proposal, slot, weight), proposal, slot, batch_weight)
            == weight + batch_weight,
        aggregated_weight(
            cast_vote_record(record, proposal, slot, weight),
            proposal,
            other_slot,
            batch_weight,
        ) == batch_weight,
        aggregated_weight(
            cast_vote_record(record, proposal, slot, weight),
            other_proposal,
            slot,
            batch_weight,
        ) == batch_weight,
{
}

} // verus!
