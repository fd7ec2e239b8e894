//! The commitments of a batch of chunks: its data hash and its public input hash.

use vstd::prelude::*;

use crate::chunk::ChunkHash;
use crate::hash::{append_h256, keccak256, keccak256_digest, H256};

verus! {

/// The two keccak commitments of a batch.
#[derive(Clone, Copy, Debug, PartialEq, Eq)]
pub struct BatchHash {
    /// `keccak(chunk[0].data_hash || ... || chunk[k-1].data_hash)`
    pub data_hash: H256,
    /// `keccak(chain_id || chunk[0].prev_state_root || chunk[k-1].post_state_root
    ///   || chunk[k-1].withdraw_root || data_hash)`
    pub public_input_hash: H256,
}

/// `chunk[0].data_hash || ... || chunk[k-1].data_hash`
pub open spec fn batch_data_preimage(chunks: Seq<ChunkHash>) -> Seq<u8>
    decreases chunks.len(),
{
    if chunks.len() == 0 {
        Seq::empty()
    } else {
        batch_data_preimage(chunks.drop_last()) + chunks.last().data_hash@
    }
}

/// `chain_id || first.prev_state_root || last.post_state_root || last.withdraw_root || data_hash`
pub open spec fn batch_pi_preimage(
    chain_id: u8,
    first: ChunkHash,
    last: ChunkHash,
    data_hash: Seq<u8>,
) -> Seq<u8> {
    seq![chain_id] + first.prev_state_root@ + last.post_state_root@ + last.withdraw_root@
        + data_hash
}

/// A batch's public input preimage is the chain id, then the bytes of the
/// first chunk's previous state root, of the last chunk's post state root and
/// withdraw root, each in array order, then the data hash.
pub proof fn lemma_batch_pi_preimage_layout(
    chain_id: u8,
    first: ChunkHash,
    last: ChunkHash,
    data_hash: Seq<u8>,
)
    ensures
        batch_pi_preimage(chain_id, first, last, data_hash).len() == 97 + data_hash.len(),
        batch_pi_preimage(chain_id, first, last, data_hash)[0] == chain_id,
        forall|j: int|
            0 <= j < 32 ==> batch_pi_preimage(chain_id, first, last, data_hash)[1 + j]
                == #[trigger] first.prev_state_root.0[j],
        forall|j: int|
            0 <= j < 32 ==> batch_pi_preimage(chain_id, first, last, data_hash)[33 + j]
                == #[trigger] last.post_state_root.0[j],
        forall|j: int|
            0 <= j < 32 ==> batch_pi_preimage(chain_id, first, last, data_hash)[65 + j]
                == #[trigger] last.withdraw_root.0[j],
        forall|j: int|
            0 <= j < data_hash.len() ==> batch_pi_preimage(chain_id, first, last, data_hash)[97
                + j] == #[trigger] data_hash[j],
{
}

/// `batch` holds the commitments of `chunks` under `chain_id`.
pub open spec fn batch_commits_to(batch: BatchHash, chunks: Seq<ChunkHash>, chain_id: u8) -> bool {
    &&& chunks.len() > 0
    &&& batch.data_hash@ == keccak256(batch_data_preimage(chunks))
    &&& batch.public_input_hash@ == keccak256(
        batch_pi_preimage(chain_id, chunks[0], chunks.last(), batch.data_hash@),
    )
}

/// The data-hash preimage of a batch is 32 bytes per chunk, and its bytes at
/// `32 * i + j` are byte `j` of the data hash of chunk `i`.
pub proof fn lemma_batch_data_preimage(chunks: Seq<ChunkHash>)
    ensures
        batch_data_preimage(chunks).len() == 32 * chunks.len(),
        forall|i: int, j: int|
            #![trigger batch_data_preimage(chunks)[32 * i + j], chunks[i]]
            0 <= i < chunks.len() && 0 <= j < 32 ==> batch_data_preimage(chunks)[32 * i + j]
                == chunks[i].data_hash@[j],
    decreases chunks.len(),
{
    if chunks.len() > 0 {
        let prefix = chunks.drop_last();
        lemma_batch_data_preimage(prefix);
        assert forall|i: int, j: int|
            0 <= i < chunks.len() && 0 <= j < 32 implies batch_data_preimage(chunks)[32 * i + j]
            == chunks[i].data_hash@[j] by {
            if i < chunks.len() - 1 {
                assert(prefix[i] == chunks[i]);
                assert(batch_data_preimage(prefix)[32 * i + j] == prefix[i].data_hash@[j]);
            }
        }
    }
}

/// The bytes whose keccak digest is the data hash of a batch of `chunks`.
pub fn batch_data_hash_preimage(chunks: &[ChunkHash]) -> (res: Vec<u8>)
    ensures
        res@ == batch_data_preimage(chunks@),
{
    let mut res: Vec<u8> = Vec::new();
    let mut i: usize = 0;
    while i < chunks.len()
        invariant
            0 <= i <= chunks@.len(),
            res@ == batch_data_preimage(chunks@.subrange(0, i as int)),
        decreases chunks@.len() - i,
    {
        append_h256(&mut res, &chunks[i].data_hash);
        i = i + 1;
        assert(chunks@.subrange(0, i as int).drop_last() =~= chunks@.subrange(0, i - 1));
    }
    assert(chunks@.subrange(0, i as int) =~= chunks@);
    res
}

/// The bytes whose keccak digest is the public input hash of a batch of
/// `chunks` with data hash `data_hash`.
pub fn batch_pi_hash_preimage(chain_id: u8, chunks: &[ChunkHash], data_hash: &H256) -> (res: Vec<
    u8,
>)
    requires
        chunks@.len() > 0,
    ensures
        res@ == batch_pi_preimage(chain_id, chunks@[0], chunks@.last(), data_hash@),
        res@.len() == 129,
        res@[0] == chain_id,
        forall|j: int| 0 <= j < 32 ==> res@[1 + j] == #[trigger] chunks@[0].prev_state_root.0[j],
        forall|j: int|
            0 <= j < 32 ==> res@[33 + j] == #[trigger] chunks@[chunks@.len()
                - 1].post_state_root.0[j],
        forall|j: int|
            0 <= j < 32 ==> res@[65 + j] == #[trigger] chunks@[chunks@.len()
                - 1].withdraw_root.0[j],
        forall|j: int| 0 <= j < 32 ==> res@[97 + j] == #[trigger] data_hash.0[j],
{
    let first = &chunks[0];
    let last = &chunks[chunks.len() - 1];
    let mut res: Vec<u8> = Vec::new();
    res.push(chain_id);
    append_h256(&mut res, &first.prev_state_root);
    append_h256(&mut res, &last.post_state_root);
    append_h256(&mut res, &last.withdraw_root);
    append_h256(&mut res, data_hash);
    assert(res@ =~= batch_pi_preimage(chain_id, chunks@[0], chunks@.last(), data_hash@));
    proof {
        lemma_batch_pi_preimage_layout(chain_id, chunks@[0], chunks@.last(), data_hash@);
    }
    res
}

impl BatchHash {
    /// Computes the commitments of a batch made of `chunk_hashes` under `chain_id`.
    pub fn construct(chunk_hashes: &[ChunkHash], chain_id: u8) -> (res: BatchHash)
        requires
            chunk_hashes@.len() > 0,
        ensures
            res.data_hash@ == keccak256(batch_data_preimage(chunk_hashes@)),
            res.public_input_hash@ == keccak256(
                batch_pi_preimage(chain_id, chunk_hashes@[0], chunk_hashes@.last(), res.data_hash@),
            ),
            batch_commits_to(res, chunk_hashes@, chain_id),
    {
        let data_preimage = batch_data_hash_preimage(chunk_hashes);
        let data_hash = keccak256_digest(data_preimage.as_slice());
        let pi_preimage = batch_pi_hash_preimage(chain_id, chunk_hashes, &data_hash);
        let public_input_hash = keccak256_digest(pi_preimage.as_slice());
        BatchHash { data_hash, public_input_hash }
    }
}

impl Default for BatchHash {
    /// Both commitments all zero.
    fn default() -> (res: Self)
        ensures
            res.data_hash@ == Seq::new(32, |i: int| 0u8),
            res.public_input_hash@ == Seq::new(32, |i: int| 0u8),
    {
        BatchHash { data_hash: H256::default(), public_input_hash: H256::default() }
    }
}

} // verus!
