use vstd::prelude::*;

use crate::address::Address;

verus! {

/// A trusted NFT collection and the weight each of its NFTs carries.
#[derive(Clone, Copy, Debug)]
pub struct CollectionConfig {
    pub collection: Address,
    /// The largest number of NFTs of the collection that may contribute.
    pub size: u32,
    pub weight: u64,
}

/// An external governance program instance allowed to consume the weights.
#[derive(Clone, Copy, Debug)]
pub struct GovernanceProgramConfig {
    pub program_id: Address,
}

/// The trust registry of one voting population.
#[derive(Clone, Debug)]
pub struct Registrar {
    pub governance_program_id: Address,
    pub realm: Address,
    pub governing_token_mint: Address,
    pub collection_configs: Vec<CollectionConfig>,
    pub governance_program_configs: Vec<GovernanceProgramConfig>,
}

/// Index of the first configuration of `collection`, if any.
pub open spec fn collection_index(configs: Seq<CollectionConfig>, collection: Address) -> Option<int>
    decreases configs.len(),
{
    if configs.len() == 0 {
        None
    } else {
        match collection_index(configs.drop_last(), collection) {
            Some(i) => Some(i),
            None => if configs.last().collection == collection {
                Some(configs.len() - 1)
            } else {
                None
            },
        }
    }
}

/// Whether `program_id` is among the permitted governance programs.
pub open spec fn permits_program(configs: Seq<GovernanceProgramConfig>, program_id: Address) -> bool {
    exists|i: int| 0 <= i < configs.len() && configs[i].program_id == program_id
}

impl Registrar {
    /// The configuration of `collection`.
    pub fn get_collection_config(&self, collection: &Address) -> (r: Option<CollectionConfig>)
        ensures
            r == match collection_index(self.collection_configs@, *collection) {
                Some(i) => Some(self.collection_configs@[i]),
                None => None::<CollectionConfig>,
            },
    {
        let mut i: usize = 0;
        while i < self.collection_configs.len()
            invariant
                0 <= i <= self.collection_configs@.len(),
                collection_index(self.collection_configs@.take(i as int), *collection) is None,
            decreases self.collection_configs@.len() - i,
        {
            let config = self.collection_configs[i];
            proof {
                assert(self.collection_configs@.take(i + 1).drop_last() =~= self.collection_configs@.take(i as int));
            }
            if config.collection == *collection {
                proof {
                    let s = self.collection_configs@;
                    lemma_collection_index_prefix(s, i + 1, *collection);
                }
                return Some(config);
            }
            i = i + 1;
        }
        proof {
            assert(self.collection_configs@.take(i as int) =~= self.collection_configs@);
        }
        None
    }

    /// Whether `program_id` is one of the permitted governance programs.
    pub fn permits_governance_program(&self, program_id: &Address) -> (r: bool)
        ensures
            r == permits_program(self.governance_program_configs@, *program_id),
    {
        let mut i: usize = 0;
        while i < self.governance_program_configs.len()
            invariant
                0 <= i <= self.governance_program_configs@.len(),
                forall|j: int| 0 <= j < i ==> self.governance_program_configs@[j].program_id != *program_id,
            decreases self.governance_program_configs@.len() - i,
        {
            if self.governance_program_configs[i].program_id == *program_id {
                return true;
            }
            i = i + 1;
        }
        false
    }
}

/// The first match within a prefix that holds one is the first match overall.
pub proof fn lemma_collection_index_prefix(configs: Seq<CollectionConfig>, n: int, collection: Address)
    requires
        0 <= n <= configs.len(),
        collection_index(configs.take(n), collection) is Some,
    ensures
        collection_index(configs, collection) == collection_index(configs.take(n), collection),
    decreases configs.len(),
{
    if n < configs.len() {
        assert(configs.drop_last().take(n) =~= configs.take(n));
        lemma_collection_index_prefix(configs.drop_last(), n, collection);
    } else {
        assert(configs.take(n) =~= configs);
    }
}

} // verus!
