use vstd::prelude::*;

use crate::address::Address;
use crate::error::NftVoterError;
use crate::registrar::{collection_index, Registrar};

verus! {

/// The collection named in an NFT's metadata.
#[derive(Clone, Copy, Debug)]
pub struct MetadataCollection {
    pub key: Address,
    /// Whether the membership was verified by the collection's authority.
    pub verified: bool,
}

/// What an NFT's metadata says of it.
#[derive(Clone, Copy, Debug)]
pub struct NftMetadata {
    pub mint: Address,
    pub collection: Option<MetadataCollection>,
}

/// An NFT as presented to a cast: its mint, the token account that holds it
/// and its metadata.
#[derive(Clone, Copy, Debug)]
pub struct NftInfo {
    pub mint: Address,
    /// The owner of the token account that holds the NFT.
    pub owner: Address,
    /// The quantity held by that token account.
    pub amount: u64,
    pub metadata: NftMetadata,
}

/// Why `nft` may not vote for `voter` under `registrar`, if it may not.
pub open spec fn nft_error(registrar: Registrar, voter: Address, nft: NftInfo) -> Option<
    NftVoterError,
> {
    if nft.owner != voter {
        Some(NftVoterError::VoterDoesNotOwnNft)
    } else if nft.amount == 0 {
        Some(NftVoterError::InvalidNftAmount)
    } else if nft.metadata.mint != nft.mint {
        Some(NftVoterError::TokenMetadataDoesNotMatch)
    } else {
        match nft.metadata.collection {
            None => Some(NftVoterError::MissingMetadataCollection),
            Some(c) => if !c.verified {
                Some(NftVoterError::CollectionMustBeVerified)
            } else if collection_index(registrar.collection_configs@, c.key) is None {
                Some(NftVoterError::CollectionNotFound)
            } else {
                None
            },
        }
    }
}

/// The weight of an NFT that may vote: that of its collection.
pub open spec fn nft_weight(registrar: Registrar, nft: NftInfo) -> u64 {
    match nft.metadata.collection {
        Some(c) => match collection_index(registrar.collection_configs@, c.key) {
            Some(i) => registrar.collection_configs@[i].weight,
            None => 0,
        },
        None => 0,
    }
}

/// Checks that `nft` may vote for `voter` and returns its weight.
pub fn resolve_nft_vote_weight(registrar: &Registrar, voter: &Address, nft: &NftInfo) -> (r: Result<
    u64,
    NftVoterError,
>)
    ensures
        match nft_error(*registrar, *voter, *nft) {
            Some(e) => r == Err::<u64, NftVoterError>(e),
            None => r == Ok::<u64, NftVoterError>(nft_weight(*registrar, *nft)),
        },
{
    if nft.owner != *voter {
        return Err(NftVoterError::VoterDoesNotOwnNft);
    }
    if nft.amount == 0 {
        return Err(NftVoterError::InvalidNftAmount);
    }
    if nft.metadata.mint != nft.mint {
        return Err(NftVoterError::TokenMetadataDoesNotMatch);
    }
    let collection = match nft.metadata.collection {
        Some(c) => c,
        None => {
            return Err(NftVoterError::MissingMetadataCollection);
        },
    };
    if !collection.verified {
        return Err(NftVoterError::CollectionMustBeVerified);
    }
    match registrar.get_collection_config(&collection.key) {
        Some(config) => Ok(config.weight),
        None => Err(NftVoterError::CollectionNotFound),
    }
}

} // verus!
