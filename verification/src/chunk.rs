//! The hashes that describe one chunk of a batch.

use rand::rngs::StdRng;
use rand::RngCore;
use vstd::prelude::*;

use crate::hash::{append_h256, H256};

verus! {

/// The commitments of one chunk: the state roots before and after it, the
/// withdraw root after it, and the hash of its data.
#[derive(Clone, Copy, Debug, PartialEq, Eq)]
pub struct ChunkHash {
    pub prev_state_root: H256,
    pub post_state_root: H256,
    pub withdraw_root: H256,
    pub data_hash: H256,
}

#[verifier::external_type_specification]
#[verifier::external_body]
pub struct ExStdRng(StdRng);

/// Draws 32 bytes with `RngCore::fill_bytes` on a `StdRng`.
///
/// Trusted: nothing is stated of the bytes, which come from the generator.
#[verifier::external_body]
fn random_h256(rng: &mut StdRng) -> (res: H256) {
    let mut bytes = [0u8; 32];
    rng.fill_bytes(&mut bytes);
    H256(bytes)
}

/// The bytes whose keccak digest is the public input hash of one chunk:
/// `chain_id || prev_state_root || post_state_root || withdraw_root || data_hash`.
pub open spec fn chunk_pi_preimage(chain_id: u8, chunk: ChunkHash) -> Seq<u8> {
    seq![chain_id] + chunk.prev_state_root@ + chunk.post_state_root@ + chunk.withdraw_root@
        + chunk.data_hash@
}

/// A chunk's public input preimage is 129 bytes: the chain id, then the bytes
/// of the previous state root, the post state root, the withdraw root and the
/// data hash, each in array order.
pub proof fn lemma_chunk_pi_preimage_layout(chain_id: u8, chunk: ChunkHash)
    ensures
        chunk_pi_preimage(chain_id, chunk).len() == 129,
        chunk_pi_preimage(chain_id, chunk)[0] == chain_id,
        forall|j: int|
            0 <= j < 32 ==> chunk_pi_preimage(chain_id, chunk)[1 + j]
                == #[trigger] chunk.prev_state_root.0[j],
        forall|j: int|
            0 <= j < 32 ==> chunk_pi_preimage(chain_id, chunk)[33 + j]
                == #[trigger] chunk.post_state_root.0[j],
        forall|j: int|
            0 <= j < 32 ==> chunk_pi_preimage(chain_id, chunk)[65 + j]
                == #[trigger] chunk.withdraw_root.0[j],
        forall|j: int|
            0 <= j < 32 ==> chunk_pi_preimage(chain_id, chunk)[97 + j]
                == #[trigger] chunk.data_hash.0[j],
{
}

impl ChunkHash {
    /// A chunk whose four hashes are drawn from `rng`.
    pub fn mock_chunk_hash(rng: &mut StdRng) -> (res: ChunkHash) {
        let prev_state_root = random_h256(rng);
        let post_state_root = random_h256(rng);
        let withdraw_root = random_h256(rng);
        let data_hash = random_h256(rng);
        ChunkHash { prev_state_root, post_state_root, withdraw_root, data_hash }
    }

    /// The preimage of this chunk's public input hash under `chain_id`.
    pub fn pi_hash_preimage(&self, chain_id: u8) -> (res: Vec<u8>)
        ensures
            res@ == chunk_pi_preimage(chain_id, *self),
            res@.len() == 129,
            res@[0] == chain_id,
            forall|j: int| 0 <= j < 32 ==> res@[1 + j] == #[trigger] self.prev_state_root.0[j],
            forall|j: int| 0 <= j < 32 ==> res@[33 + j] == #[trigger] self.post_state_root.0[j],
            forall|j: int| 0 <= j < 32 ==> res@[65 + j] == #[trigger] self.withdraw_root.0[j],
            forall|j: int| 0 <= j < 32 ==> res@[97 + j] == #[trigger] self.data_hash.0[j],
    {
        let mut res: Vec<u8> = Vec::new();
        res.push(chain_id);
        append_h256(&mut res, &self.prev_state_root);
        append_h256(&mut res, &self.post_state_root);
        append_h256(&mut res, &self.withdraw_root);
        append_h256(&mut res, &self.data_hash);
        assert(res@ =~= chunk_pi_preimage(chain_id, *self));
        proof {
            lemma_chunk_pi_preimage_layout(chain_id, *self);
        }
        res
    }
}

} // verus!
