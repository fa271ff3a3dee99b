pub mod address;
pub mod error;
pub mod registrar;
pub mod voter_weight_record;
pub mod realm_voter;
pub mod nft;
pub mod vote_receipt;
pub mod cast_nft_vote;
pub mod relinquish_nft_vote;
