use vstd::prelude::*;

use crate::address::Address;

verus! {

/// The mark that one NFT has contributed weight to one proposal.
#[derive(Clone, Copy, Debug)]
pub struct VoteReceipt {
    pub proposal: Address,
    pub nft_mint: Address,
    pub governing_token_owner: Address,
    /// The weight the NFT contributed.
    pub weight: u64,
}

/// Whether `receipts` holds a receipt for `proposal` and `nft_mint`.
pub open spec fn has_receipt(receipts: Seq<VoteReceipt>, proposal: Address, nft_mint: Address) -> bool {
    exists|i: int|
        0 <= i < receipts.len() && receipts[i].proposal == proposal && receipts[i].nft_mint
            == nft_mint
}

/// No two receipts share a proposal and an NFT.
pub open spec fn receipts_unique(receipts: Seq<VoteReceipt>) -> bool {
    forall|i: int, j: int|
        0 <= i < receipts.len() && 0 <= j < receipts.len() && i != j ==> !(receipts[i].proposal
            == receipts[j].proposal && receipts[i].nft_mint == receipts[j].nft_mint)
}

/// Whether the receipt is one of those that relinquishing `nft_mints` on
/// `proposal` removes.
pub open spec fn is_relinquished(receipt: VoteReceipt, proposal: Address, nft_mints: Seq<Address>) -> bool {
    receipt.proposal == proposal && nft_mints.contains(receipt.nft_mint)
}

/// The receipts that remain after relinquishing `nft_mints` on `proposal`.
pub open spec fn remaining_receipts(
    receipts: Seq<VoteReceipt>,
    proposal: Address,
    nft_mints: Seq<Address>,
) -> Seq<VoteReceipt> {
    receipts.filter(|r: VoteReceipt| !is_relinquished(r, proposal, nft_mints))
}

/// The vote receipts, keyed by proposal and NFT.
#[derive(Clone, Debug)]
pub struct VoteReceiptStore {
    pub receipts: Vec<VoteReceipt>,
}

impl View for VoteReceiptStore {
    type V = Seq<VoteReceipt>;

    open spec fn view(&self) -> Seq<VoteReceipt> {
        self.receipts@
    }
}

impl VoteReceiptStore {
    pub open spec fn wf(&self) -> bool {
        receipts_unique(self@)
    }

    pub fn new() -> (r: VoteReceiptStore)
        ensures
            r@ == Seq::<VoteReceipt>::empty(),
            r.wf(),
    {
        VoteReceiptStore { receipts: Vec::new() }
    }

    pub fn len(&self) -> (r: usize)
        ensures
            r == self@.len(),
    {
        self.receipts.len()
    }

    /// The position of the receipt for `proposal` and `nft_mint`, if there is one.
    pub fn find(&self, proposal: &Address, nft_mint: &Address) -> (r: Option<usize>)
        ensures
            r is None <==> !has_receipt(self@, *proposal, *nft_mint),
            r matches Some(i) ==> i < self@.len() && self@[i as int].proposal == *proposal
                && self@[i as int].nft_mint == *nft_mint,
    {
        let mut i: usize = 0;
        while i < self.receipts.len()
            invariant
                0 <= i <= self@.len(),
                forall|j: int|
                    0 <= j < i ==> !(self@[j].proposal == *proposal && self@[j].nft_mint
                        == *nft_mint),
            decreases self@.len() - i,
        {
            let receipt = &self.receipts[i];
            if receipt.proposal == *proposal && receipt.nft_mint == *nft_mint {
                return Some(i);
            }
            i = i + 1;
        }
        None
    }

    /// Whether a receipt for `proposal` and `nft_mint` exists.
    pub fn contains(&self, proposal: &Address, nft_mint: &Address) -> (r: bool)
        ensures
            r == has_receipt(self@, *proposal, *nft_mint),
    {
        self.find(proposal, nft_mint).is_some()
    }

    /// The receipt for `proposal` and `nft_mint`, if there is one.
    pub fn get(&self, proposal: &Address, nft_mint: &Address) -> (r: Option<VoteReceipt>)
        ensures
            r is None <==> !has_receipt(self@, *proposal, *nft_mint),
            r matches Some(receipt) ==> self@.contains(receipt) && receipt.proposal == *proposal
                && receipt.nft_mint == *nft_mint,
    {
        match self.find(proposal, nft_mint) {
            Some(i) => Some(self.receipts[i]),
            None => None,
        }
    }
}

} // verus!
