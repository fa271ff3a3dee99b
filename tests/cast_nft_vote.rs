use nft_vote_weight::address::Address;
use nft_vote_weight::cast_nft_vote::{cast_nft_vote, CastOutcome, CastVoteArgs, Vote, VoteChoice};
use nft_vote_weight::error::NftVoterError;
use nft_vote_weight::nft::{MetadataCollection, NftInfo, NftMetadata};
use nft_vote_weight::registrar::{CollectionConfig, GovernanceProgramConfig, Registrar};
use nft_vote_weight::relinquish_nft_vote::relinquish_nft_vote;
use nft_vote_weight::vote_receipt::VoteReceiptStore;
use nft_vote_weight::voter_weight_record::{VoterWeightAction, VoterWeightRecord};

fn key(n: u8) -> Address {
    Address::new([n; 32])
}

const REALM: u8 = 1;
const MINT: u8 = 2;
const GOVERNANCE: u8 = 3;
const COLLECTION: u8 = 4;
const OTHER_COLLECTION: u8 = 5;
const VOTER: u8 = 6;
const OTHER_VOTER: u8 = 7;
const PROPOSAL: u8 = 8;
const OTHER_PROPOSAL: u8 = 9;
const TRANSACTION: u8 = 10;

struct Bench {
    registrar: Registrar,
    record: VoterWeightRecord,
    store: VoteReceiptStore,
    slot: u64,
}

fn bench_with_weight(weight: u64) -> Bench {
    let registrar = Registrar {
        governance_program_id: key(GOVERNANCE),
        realm: key(REALM),
        governing_token_mint: key(MINT),
        collection_configs: vec![CollectionConfig { collection: key(COLLECTION), size: 20, weight }],
        governance_program_configs: vec![GovernanceProgramConfig { program_id: key(GOVERNANCE) }],
    };
    Bench {
        registrar,
        record: VoterWeightRecord::new(key(REALM), key(MINT), key(VOTER)),
        store: VoteReceiptStore::new(),
        slot: 100,
    }
}

fn bench() -> Bench {
    bench_with_weight(10)
}

/// An NFT of the configured collection held by the voter; `n` tells NFTs apart.
fn nft(n: u8) -> NftInfo {
    let mint = key(100 + n);
    NftInfo {
        mint,
        owner: key(VOTER),
        amount: 1,
        metadata: NftMetadata {
            mint,
            collection: Some(MetadataCollection { key: key(COLLECTION), verified: true }),
        },
    }
}

fn deny() -> Option<CastVoteArgs> {
    Some(CastVoteArgs { cast_spl_gov_vote: true, vote_type: Vote::Deny })
}

impl Bench {
    fn cast(
        &mut self,
        nfts: &[NftInfo],
        transaction: Option<Address>,
        args: Option<CastVoteArgs>,
    ) -> Result<CastOutcome, NftVoterError> {
        self.cast_as(VOTER, PROPOSAL, nfts, transaction, args)
    }

    fn cast_as(
        &mut self,
        voter: u8,
        proposal: u8,
        nfts: &[NftInfo],
        transaction: Option<Address>,
        args: Option<CastVoteArgs>,
    ) -> Result<CastOutcome, NftVoterError> {
        cast_nft_vote(
            &self.registrar,
            &mut self.record,
            &mut self.store,
            &key(voter),
            &key(proposal),
            &nfts.to_vec(),
            transaction,
            args,
            self.slot,
        )
    }

    fn relinquish(&mut self, nfts: &[NftInfo]) -> Result<(), NftVoterError> {
        let mints: Vec<Address> = nfts.iter().map(|n| n.mint).collect();
        relinquish_nft_vote(
            &self.registrar,
            &self.record,
            &mut self.store,
            &key(VOTER),
            &key(PROPOSAL),
            &mints,
        )
    }

    fn assert_cast_record(&self, weight: u64) {
        assert_eq!(self.record.voter_weight, weight);
        assert_eq!(self.record.voter_weight_expiry, Some(self.slot));
        assert_eq!(self.record.weight_action, Some(VoterWeightAction::CastVote));
        assert_eq!(self.record.weight_action_target, Some(key(PROPOSAL)));
    }

    fn assert_rejected(&mut self, nfts: &[NftInfo], expected: NftVoterError) {
        let record = self.record;
        let receipts = self.store.len();
        let err = self.cast(nfts, None, None).err().unwrap();
        assert_eq!(err, expected);
        assert_eq!(self.record.voter_weight, record.voter_weight);
        assert_eq!(self.record.voter_weight_expiry, record.voter_weight_expiry);
        assert_eq!(self.store.len(), receipts);
    }
}

#[test]
fn test_cast_nft_vote_with_phase_spl_deny_weight_should_be_0() {
    let mut b = bench();
    let outcome = b.cast(&[nft(1)], Some(key(TRANSACTION)), deny()).unwrap();
    assert_eq!(outcome.receipts.len(), 1);
    assert_eq!(outcome.receipts[0].nft_mint, nft(1).mint);
    assert!(b.store.contains(&key(PROPOSAL), &nft(1).mint));
    b.assert_cast_record(0);
    let submission = outcome.submission.unwrap();
    assert_eq!(submission.voter_weight, 10);
    assert_eq!(submission.proposal_transaction, Some(key(TRANSACTION)));
    assert!(matches!(submission.vote, Vote::Deny));
}

#[test]
fn test_cast_nft_vote() {
    let mut b = bench();
    let outcome = b.cast(&[nft(1)], None, None).unwrap();
    assert_eq!(outcome.receipts.len(), 1);
    let receipt = b.store.get(&key(PROPOSAL), &nft(1).mint).unwrap();
    assert_eq!(receipt.governing_token_owner, key(VOTER));
    assert_eq!(receipt.weight, 10);
    assert_eq!(outcome.receipts[0].proposal, key(PROPOSAL));
    assert!(outcome.submission.is_none());
    b.assert_cast_record(10);
}

#[test]
fn test_cast_nft_vote_with_multiple_nfts_with_phase_deny_should_be_0() {
    let mut b = bench();
    let outcome = b.cast(&[nft(1), nft(2)], Some(key(TRANSACTION)), deny()).unwrap();
    assert_eq!(outcome.receipts.len(), 2);
    assert_eq!(outcome.receipts[1].nft_mint, nft(2).mint);
    assert_eq!(outcome.submission.unwrap().voter_weight, 20);
    b.assert_cast_record(0);
}

#[test]
fn test_cast_nft_vote_with_multiple_nfts() {
    let mut b = bench();
    let outcome = b.cast(&[nft(1), nft(2)], None, None).unwrap();
    assert_eq!(outcome.receipts.len(), 2);
    assert_eq!(outcome.receipts[0].nft_mint, nft(1).mint);
    assert_eq!(outcome.receipts[1].nft_mint, nft(2).mint);
    b.assert_cast_record(20);
}

#[test]
fn test_cast_nft_vote_with_phase_spl_deny_weight_without_prop_tx_should_fail() {
    let mut b = bench();
    let err = b.cast(&[nft(1)], None, deny()).err().unwrap();
    assert_eq!(err, NftVoterError::MustIncludeProposalTransactionForPhaseVotes);
    assert_eq!(b.store.len(), 0);
    assert_eq!(b.record.voter_weight_expiry, None);
}

#[test]
fn test_cast_nft_vote_with_nft_already_voted_error() {
    let mut b = bench();
    b.cast(&[nft(1)], None, None).unwrap();
    b.slot += 1;
    let err = b.cast(&[nft(1)], None, None).err().unwrap();
    assert_eq!(err, NftVoterError::NftAlreadyVoted);
}

#[test]
fn test_cast_nft_vote_invalid_voter_error() {
    let mut b = bench();
    let mut foreign = nft(1);
    foreign.owner = key(OTHER_VOTER);
    let err = b.cast_as(OTHER_VOTER, PROPOSAL, &[foreign], None, None).err().unwrap();
    assert_eq!(err, NftVoterError::InvalidTokenOwnerForVoterWeightRecord);
}

#[test]
fn test_cast_nft_vote_with_unverified_collection_error() {
    let mut b = bench();
    let mut unverified = nft(1);
    unverified.metadata.collection = Some(MetadataCollection { key: key(COLLECTION), verified: false });
    b.assert_rejected(&[unverified], NftVoterError::CollectionMustBeVerified);
}

#[test]
fn test_cast_nft_vote_with_invalid_owner_error() {
    let mut b = bench();
    let mut foreign = nft(1);
    foreign.owner = key(OTHER_VOTER);
    b.assert_rejected(&[foreign], NftVoterError::VoterDoesNotOwnNft);
}

#[test]
fn test_cast_nft_vote_with_invalid_collection_error() {
    let mut b = bench();
    let mut stranger = nft(1);
    stranger.metadata.collection = Some(MetadataCollection { key: key(OTHER_COLLECTION), verified: true });
    b.assert_rejected(&[stranger], NftVoterError::CollectionNotFound);
}

#[test]
fn test_cast_nft_vote_with_invalid_metadata_error() {
    let mut b = bench();
    let mut mismatched = nft(1);
    mismatched.metadata.mint = nft(2).mint;
    b.assert_rejected(&[mismatched], NftVoterError::TokenMetadataDoesNotMatch);
}

#[test]
fn test_cast_nft_vote_with_same_nft_error() {
    let mut b = bench();
    b.assert_rejected(&[nft(1), nft(1)], NftVoterError::DuplicatedNftDetected);
}

#[test]
fn test_cast_nft_vote_with_no_nft_error() {
    let mut b = bench();
    let mut empty = nft(1);
    empty.amount = 0;
    b.assert_rejected(&[empty], NftVoterError::InvalidNftAmount);
}

#[test]
fn test_cast_nft_vote_with_max_5_nfts_with_deny_phase_vote() {
    let mut b = bench();
    let nfts = [nft(1), nft(2), nft(3), nft(4), nft(5)];
    let outcome = b.cast(&nfts, Some(key(TRANSACTION)), deny()).unwrap();
    assert_eq!(outcome.receipts.len(), 5);
    assert_eq!(outcome.receipts[4].nft_mint, nft(5).mint);
    assert_eq!(outcome.submission.unwrap().voter_weight, 50);
    b.assert_cast_record(0);
}

#[test]
fn test_cast_nft_vote_with_max_5_nfts() {
    let mut b = bench();
    let nfts = [nft(1), nft(2), nft(3), nft(4), nft(5)];
    let outcome = b.cast(&nfts, None, None).unwrap();
    assert_eq!(outcome.receipts.len(), 5);
    assert_eq!(b.store.len(), 5);
    b.assert_cast_record(50);
}

#[test]
fn test_cast_nft_vote_using_multiple_instructions() {
    let mut b = bench();
    b.cast(&[nft(1)], None, None).unwrap();
    b.cast(&[nft(2)], None, None).unwrap();
    b.assert_cast_record(20);
}

#[test]
fn test_cast_nft_vote_using_multiple_instructions_with_nft_already_voted_error() {
    let mut b = bench();
    b.cast(&[nft(1)], None, None).unwrap();
    let err = b.cast(&[nft(1)], None, None).err().unwrap();
    assert_eq!(err, NftVoterError::NftAlreadyVoted);
    b.assert_cast_record(10);
}

#[test]
fn test_cast_nft_vote_using_multiple_instructions_with_attempted_sandwiched_relinquish() {
    let mut b = bench();
    b.cast(&[nft(1)], None, None).unwrap();
    b.slot += 1;
    b.relinquish(&[nft(1)]).unwrap();
    assert!(!b.store.contains(&key(PROPOSAL), &nft(1).mint));
    b.cast(&[nft(1)], None, None).unwrap();
    b.assert_cast_record(10);
}

#[test]
fn cast_rejects_empty_batch() {
    let mut b = bench();
    b.assert_rejected(&[], NftVoterError::NoNftsProvided);
}

#[test]
fn cast_rejects_six_nfts() {
    let mut b = bench();
    let nfts = [nft(1), nft(2), nft(3), nft(4), nft(5), nft(6)];
    b.assert_rejected(&nfts, NftVoterError::TooManyNfts);
}

#[test]
fn cast_rejects_metadata_without_collection() {
    let mut b = bench();
    let mut bare = nft(1);
    bare.metadata.collection = None;
    b.assert_rejected(&[bare], NftVoterError::MissingMetadataCollection);
}

#[test]
fn cast_rejects_record_of_another_realm() {
    let mut b = bench();
    b.record.realm = key(OTHER_COLLECTION);
    b.assert_rejected(&[nft(1)], NftVoterError::InvalidVoterWeightRecordRealm);
}

#[test]
fn cast_rejects_record_of_another_mint() {
    let mut b = bench();
    b.record.governing_token_mint = key(OTHER_COLLECTION);
    b.assert_rejected(&[nft(1)], NftVoterError::InvalidVoterWeightRecordMint);
}

#[test]
fn cast_rejects_weight_overflow() {
    let mut b = bench_with_weight(u64::MAX);
    b.cast(&[nft(1)], None, None).unwrap();
    b.assert_cast_record(u64::MAX);
    b.assert_rejected(&[nft(2)], NftVoterError::VoterWeightOverflow);
}

#[test]
fn batch_with_one_invalid_nft_changes_nothing() {
    let mut b = bench();
    b.cast(&[nft(1)], None, None).unwrap();
    let mut foreign = nft(3);
    foreign.owner = key(OTHER_VOTER);
    b.assert_rejected(&[nft(2), foreign], NftVoterError::VoterDoesNotOwnNft);
    let mut unverified = nft(3);
    unverified.metadata.collection = Some(MetadataCollection { key: key(COLLECTION), verified: false });
    b.assert_rejected(&[nft(2), unverified], NftVoterError::CollectionMustBeVerified);
    let mut empty = nft(3);
    empty.amount = 0;
    b.assert_rejected(&[nft(2), empty], NftVoterError::InvalidNftAmount);
    b.assert_rejected(&[nft(2), nft(3), nft(2)], NftVoterError::DuplicatedNftDetected);
    assert!(!b.store.contains(&key(PROPOSAL), &nft(2).mint));
    b.assert_cast_record(10);
}

#[test]
fn second_cast_in_same_slot_accumulates_and_later_slot_resets() {
    let mut b = bench();
    b.cast(&[nft(1)], None, None).unwrap();
    b.cast(&[nft(2)], None, None).unwrap();
    b.assert_cast_record(20);
    b.slot += 1;
    b.cast(&[nft(3)], None, None).unwrap();
    b.assert_cast_record(10);
}

#[test]
fn cast_on_another_proposal_resets() {
    let mut b = bench();
    b.cast(&[nft(1)], None, None).unwrap();
    b.cast_as(VOTER, OTHER_PROPOSAL, &[nft(1)], None, None).unwrap();
    assert_eq!(b.record.voter_weight, 10);
    assert_eq!(b.record.weight_action_target, Some(key(OTHER_PROPOSAL)));
    assert!(b.store.contains(&key(OTHER_PROPOSAL), &nft(1).mint));
    assert_eq!(b.store.len(), 2);
}

#[test]
fn five_casts_in_one_slot_add_up_to_fifty() {
    let mut b = bench();
    for n in 1..=5 {
        b.cast(&[nft(n)], None, None).unwrap();
    }
    b.assert_cast_record(50);
    assert_eq!(b.store.len(), 5);
}

#[test]
fn approve_submission_keeps_weight() {
    let mut b = bench();
    let args = Some(CastVoteArgs {
        cast_spl_gov_vote: true,
        vote_type: Vote::Approve(vec![VoteChoice { rank: 0, weight_percentage: 100 }]),
    });
    let outcome = b.cast(&[nft(1), nft(2)], None, args).unwrap();
    let submission = outcome.submission.unwrap();
    assert_eq!(submission.voter_weight, 20);
    assert!(matches!(submission.vote, Vote::Approve(ref choices) if choices.len() == 1));
    b.assert_cast_record(20);
}

#[test]
fn veto_submission_zeroes_weight() {
    let mut b = bench();
    let args = Some(CastVoteArgs { cast_spl_gov_vote: true, vote_type: Vote::Veto });
    let outcome = b.cast(&[nft(1)], Some(key(TRANSACTION)), args).unwrap();
    assert_eq!(outcome.submission.unwrap().voter_weight, 10);
    b.assert_cast_record(0);
}

#[test]
fn deny_without_submission_keeps_weight() {
    let mut b = bench();
    let args = Some(CastVoteArgs { cast_spl_gov_vote: false, vote_type: Vote::Deny });
    let outcome = b.cast(&[nft(1)], None, args).unwrap();
    assert!(outcome.submission.is_none());
    b.assert_cast_record(10);
}

#[test]
fn relinquish_then_recast_in_later_slot_resets() {
    let mut b = bench();
    b.cast(&[nft(1), nft(2)], None, None).unwrap();
    b.assert_cast_record(20);
    b.relinquish(&[nft(1)]).unwrap();
    assert_eq!(b.record.voter_weight, 20);
    assert!(b.store.contains(&key(PROPOSAL), &nft(2).mint));
    b.slot += 1;
    b.cast(&[nft(1)], None, None).unwrap();
    b.assert_cast_record(10);
}

#[test]
fn relinquish_unknown_receipt_fails() {
    let mut b = bench();
    b.cast(&[nft(1)], None, None).unwrap();
    let err = b.relinquish(&[nft(1), nft(2)]).err().unwrap();
    assert_eq!(err, NftVoterError::NftVoteRecordNotFound);
    assert_eq!(b.store.len(), 1);
}

#[test]
fn relinquish_receipt_of_another_voter_fails() {
    let mut b = bench();
    b.cast(&[nft(1)], None, None).unwrap();
    let mut other = bench();
    other.record = VoterWeightRecord::new(key(REALM), key(MINT), key(OTHER_VOTER));
    let mut foreign = nft(2);
    foreign.owner = key(OTHER_VOTER);
    other.cast_as(OTHER_VOTER, PROPOSAL, &[foreign], None, None).unwrap();
    b.store.receipts.push(other.store.receipts[0]);
    let err = b.relinquish(&[nft(2)]).err().unwrap();
    assert_eq!(err, NftVoterError::InvalidTokenOwnerForNftVoteRecord);
    assert_eq!(b.store.len(), 2);
}

#[test]
fn relinquish_with_foreign_record_fails() {
    let mut b = bench();
    b.cast(&[nft(1)], None, None).unwrap();
    b.record.realm = key(OTHER_COLLECTION);
    let err = b.relinquish(&[nft(1)]).err().unwrap();
    assert_eq!(err, NftVoterError::InvalidVoterWeightRecordRealm);
    assert_eq!(b.store.len(), 1);
}
