use vstd::prelude::*;

verus! {

/// Failures of casting or relinquishing NFT votes. Every one of them is
/// detected before any state is changed.
#[derive(Clone, Copy, Debug, PartialEq, Eq, Structural)]
pub enum NftVoterError {
    /// The voter weight record belongs to another realm.
    InvalidVoterWeightRecordRealm,
    /// The voter weight record belongs to another governing token mint.
    InvalidVoterWeightRecordMint,
    /// The voter weight record belongs to another voter.
    InvalidTokenOwnerForVoterWeightRecord,
    /// The batch holds no NFT.
    NoNftsProvided,
    /// The batch holds more NFTs than one call accepts.
    TooManyNfts,
    /// A deny or veto vote is submitted without naming the proposal transaction.
    MustIncludeProposalTransactionForPhaseVotes,
    /// The same NFT appears twice in one batch.
    DuplicatedNftDetected,
    /// The NFT's token account is not held by the voter.
    VoterDoesNotOwnNft,
    /// The token account holds no token.
    InvalidNftAmount,
    /// The metadata describes another mint.
    TokenMetadataDoesNotMatch,
    /// The metadata names no collection.
    MissingMetadataCollection,
    /// The collection membership is not verified.
    CollectionMustBeVerified,
    /// The collection is not configured in the registrar.
    CollectionNotFound,
    /// A vote receipt already exists for the proposal and the NFT.
    NftAlreadyVoted,
    /// The voter weight does not fit in 64 bits.
    VoterWeightOverflow,
    /// No vote receipt exists for the proposal and the NFT.
    NftVoteRecordNotFound,
    /// The vote receipt was created by another voter.
    InvalidTokenOwnerForNftVoteRecord,
}

/// Failures of a realm voter weight update.
#[derive(Clone, Copy, Debug, PartialEq, Eq, Structural)]
pub enum RealmVoterError {
    /// The voter weight record belongs to another realm.
    InvalidVoterWeightRecordRealm,
    /// The voter weight record belongs to another governing token mint.
    InvalidVoterWeightRecordMint,
    /// The token owner record account does not hold a valid token owner record.
    InvalidTokenOwnerRecord,
}

} // verus!
