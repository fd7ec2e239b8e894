//! The batch hash circuit's witness: the chunks of a batch, their commitments,
//! the public input of the batch, and every keccak preimage the circuit checks.

use rand::rngs::StdRng;
use vstd::prelude::*;

use crate::batch::{
    batch_commits_to, batch_data_hash_preimage, batch_data_preimage, batch_pi_hash_preimage,
    batch_pi_preimage, BatchHash,
};
use crate::chunk::{chunk_pi_preimage, ChunkHash};
use crate::hash::{keccak256, H256};

verus! {

/// Public inputs and witnesses needed to generate the batch hash circuit.
#[derive(Clone, Debug)]
pub struct BatchHashCircuit {
    pub chain_id: u8,
    pub chunks: Vec<ChunkHash>,
    pub batch: BatchHash,
}

/// Public input to a batch circuit, in raw format, i.e. before it is turned
/// into field elements.
#[derive(Clone, Copy, Debug, PartialEq, Eq)]
pub struct BatchHashCircuitPublicInput {
    pub chain_id: u8,
    pub first_chunk_prev_state_root: H256,
    pub last_chunk_post_state_root: H256,
    pub last_chunk_withdraw_root: H256,
    pub batch_public_input_hash: H256,
}

/// `chunk` with its previous state root replaced by `root`.
pub open spec fn with_prev_state_root(chunk: ChunkHash, root: H256) -> ChunkHash {
    ChunkHash {
        prev_state_root: root,
        post_state_root: chunk.post_state_root,
        withdraw_root: chunk.withdraw_root,
        data_hash: chunk.data_hash,
    }
}

/// Replacing the previous state root keeps the other three hashes of the chunk.
pub proof fn lemma_with_prev_state_root(chunk: ChunkHash, root: H256)
    ensures
        with_prev_state_root(chunk, root).prev_state_root == root,
        with_prev_state_root(chunk, root).post_state_root == chunk.post_state_root,
        with_prev_state_root(chunk, root).withdraw_root == chunk.withdraw_root,
        with_prev_state_root(chunk, root).data_hash == chunk.data_hash,
{
}

/// Every chunk starts from the state the one before it ended in.
pub open spec fn chunks_are_continuous(chunks: Seq<ChunkHash>) -> bool {
    forall|i: int|
        0 <= i < chunks.len() - 1 ==> #[trigger] chunks[i + 1].prev_state_root
            == chunks[i].post_state_root
}

impl BatchHashCircuit {
    /// The batch commitments held by the circuit are those of its chunks.
    pub open spec fn well_formed(&self) -> bool {
        batch_commits_to(self.batch, self.chunks@, self.chain_id)
    }

    /// The public input of the circuit.
    pub open spec fn spec_public_input(&self) -> BatchHashCircuitPublicInput {
        BatchHashCircuitPublicInput {
            chain_id: self.chain_id,
            first_chunk_prev_state_root: self.chunks@[0].prev_state_root,
            last_chunk_post_state_root: self.chunks@.last().post_state_root,
            last_chunk_withdraw_root: self.chunks@.last().withdraw_root,
            batch_public_input_hash: self.batch.public_input_hash,
        }
    }

    /// The preimages of all the hashes the circuit checks, in order: the batch
    /// public input hash, the batch data hash, then each chunk's public input hash.
    pub open spec fn spec_hash_preimages(&self) -> Seq<Seq<u8>> {
        seq![
            batch_pi_preimage(
                self.chain_id,
                self.chunks@[0],
                self.chunks@.last(),
                self.batch.data_hash@,
            ),
            batch_data_preimage(self.chunks@),
        ] + self.chunks@.map_values(|c: ChunkHash| chunk_pi_preimage(self.chain_id, c))
    }

    /// Builds the batch hash circuit from a list of chunks.
    pub fn construct(chunk_hashes: &[ChunkHash], chain_id: u8) -> (res: Self)
        requires
            chunk_hashes@.len() > 0,
        ensures
            res.chain_id == chain_id,
            res.chunks@ == chunk_hashes@,
            batch_commits_to(res.batch, chunk_hashes@, chain_id),
            res.well_formed(),
    {
        let batch = BatchHash::construct(chunk_hashes, chain_id);
        let mut chunks: Vec<ChunkHash> = Vec::new();
        let mut i: usize = 0;
        while i < chunk_hashes.len()
            invariant
                0 <= i <= chunk_hashes@.len(),
                chunks@ == chunk_hashes@.subrange(0, i as int),
            decreases chunk_hashes@.len() - i,
        {
            chunks.push(chunk_hashes[i]);
            i = i + 1;
        }
        assert(chunk_hashes@.subrange(0, i as int) =~= chunk_hashes@);
        BatchHashCircuit { chain_id, chunks, batch }
    }

    /// The public input to the batch hash circuit.
    pub fn public_input(&self) -> (res: BatchHashCircuitPublicInput)
        requires
            self.chunks@.len() > 0,
        ensures
            res == self.spec_public_input(),
            res.chain_id == self.chain_id,
            res.first_chunk_prev_state_root == self.chunks@[0].prev_state_root,
            res.last_chunk_post_state_root == self.chunks@[self.chunks@.len() - 1].post_state_root,
            res.last_chunk_withdraw_root == self.chunks@[self.chunks@.len() - 1].withdraw_root,
            res.batch_public_input_hash == self.batch.public_input_hash,
    {
        let last = self.chunks.len() - 1;
        BatchHashCircuitPublicInput {
            chain_id: self.chain_id,
            first_chunk_prev_state_root: self.chunks[0].prev_state_root,
            last_chunk_post_state_root: self.chunks[last].post_state_root,
            last_chunk_withdraw_root: self.chunks[last].withdraw_root,
            batch_public_input_hash: self.batch.public_input_hash,
        }
    }

    /// Extracts all the hash inputs that will ever be used, in the order:
    /// the batch public input hash, the batch data hash, then `chunk[i]`'s
    /// public input hash for each `i` in `[0, k)`.
    pub fn extract_hash_preimages(&self) -> (res: Vec<Vec<u8>>)
        requires
            self.chunks@.len() > 0,
        ensures
            res@.len() == self.chunks@.len() + 2,
            forall|i: int| 0 <= i < res@.len() ==> #[trigger] res@[i]@ == self.spec_hash_preimages()[i],
    {
        let ghost spec = self.spec_hash_preimages();
        let mut res: Vec<Vec<u8>> = Vec::new();
        res.push(batch_pi_hash_preimage(self.chain_id, self.chunks.as_slice(), &self.batch.data_hash));
        res.push(batch_data_hash_preimage(self.chunks.as_slice()));
        let mut i: usize = 0;
        while i < self.chunks.len()
            invariant
                0 <= i <= self.chunks@.len(),
                spec == self.spec_hash_preimages(),
                res@.len() == i + 2,
                forall|j: int| 0 <= j < res@.len() ==> #[trigger] res@[j]@ == spec[j],
            decreases self.chunks@.len() - i,
        {
            res.push(self.chunks[i].pi_hash_preimage(self.chain_id));
            i = i + 1;
        }
        res
    }
}

/// Each chunk after the first takes the post state root of the chunk before
/// it as its previous state root.
pub fn link_chunk_roots(chunks: Vec<ChunkHash>) -> (res: Vec<ChunkHash>)
    requires
        chunks@.len() > 0,
    ensures
        res@.len() == chunks@.len(),
        res@[0] == chunks@[0],
        forall|i: int|
            1 <= i < chunks@.len() ==> #[trigger] res@[i].prev_state_root == chunks@[i
                - 1].post_state_root,
        forall|i: int|
            1 <= i < chunks@.len() ==> #[trigger] res@[i].post_state_root
                == chunks@[i].post_state_root,
        forall|i: int|
            1 <= i < chunks@.len() ==> #[trigger] res@[i].withdraw_root
                == chunks@[i].withdraw_root,
        forall|i: int|
            1 <= i < chunks@.len() ==> #[trigger] res@[i].data_hash == chunks@[i].data_hash,
        forall|i: int|
            1 <= i < chunks@.len() ==> #[trigger] res@[i] == with_prev_state_root(
                chunks@[i],
                chunks@[i - 1].post_state_root,
            ),
        chunks_are_continuous(res@),
{
    let mut chunks = chunks;
    let ghost orig = chunks@;
    let mut i: usize = 0;
    while i < chunks.len() - 1
        invariant
            chunks@.len() == orig.len(),
            orig.len() > 0,
            0 <= i <= orig.len() - 1,
            chunks@[0] == orig[0],
            forall|j: int| 1 <= j <= i ==> #[trigger] chunks@[j] == with_prev_state_root(
                orig[j],
                orig[j - 1].post_state_root,
            ),
            forall|j: int| i < j < orig.len() ==> #[trigger] chunks@[j] == orig[j],
        decreases orig.len() - 1 - i,
    {
        let mut next = chunks[i + 1];
        next.prev_state_root = chunks[i].post_state_root;
        chunks[i + 1] = next;
        i = i + 1;
    }
    assert forall|j: int| 1 <= j < chunks@.len() implies {
        &&& #[trigger] chunks@[j].prev_state_root == orig[j - 1].post_state_root
        &&& chunks@[j].post_state_root == orig[j].post_state_root
        &&& chunks@[j].withdraw_root == orig[j].withdraw_root
        &&& chunks@[j].data_hash == orig[j].data_hash
    } by {
        lemma_with_prev_state_root(orig[j], orig[j - 1].post_state_root);
    }
    assert forall|j: int| 0 <= j < chunks@.len() - 1 implies #[trigger] chunks@[j + 1].prev_state_root
        == chunks@[j].post_state_root by {
        if j >= 1 {
            assert(chunks@[j] == with_prev_state_root(orig[j], orig[j - 1].post_state_root));
        }
    }
    chunks
}

impl BatchHashCircuit {
    /// Samples a batch hash circuit of `size` chunks with random hashes, whose
    /// chunks are linked by their state roots (for testing).
    pub fn mock_batch_hash_circuit(rng: &mut StdRng, size: usize) -> (res: Self)
        requires
            size > 0,
        ensures
            res.chain_id == 0,
            res.chunks@.len() == size,
            chunks_are_continuous(res.chunks@),
            res.well_formed(),
    {
        let mut chunks: Vec<ChunkHash> = Vec::new();
        let mut i: usize = 0;
        while i < size
            invariant
                0 <= i <= size,
                chunks@.len() == i,
            decreases size - i,
        {
            chunks.push(ChunkHash::mock_chunk_hash(rng));
            i = i + 1;
        }
        let chunks = link_chunk_roots(chunks);
        Self::construct(chunks.as_slice(), 0)
    }
}

impl BatchHashCircuit {
    /// The same circuit shape with no witness: no chunk, chain id 0 and all-zero
    /// batch commitments.
    pub fn without_witnesses(&self) -> (res: Self)
        ensures
            res.chain_id == 0,
            res.chunks@.len() == 0,
            res.batch.data_hash@ == Seq::new(32, |i: int| 0u8),
            res.batch.public_input_hash@ == Seq::new(32, |i: int| 0u8),
    {
        Self::default()
    }
}

impl Default for BatchHashCircuit {
    /// No chunk, chain id 0 and all-zero batch commitments.
    fn default() -> (res: Self)
        ensures
            res.chain_id == 0,
            res.chunks@.len() == 0,
            res.batch.data_hash@ == Seq::new(32, |i: int| 0u8),
            res.batch.public_input_hash@ == Seq::new(32, |i: int| 0u8),
    {
        BatchHashCircuit { chain_id: 0, chunks: Vec::new(), batch: BatchHash::default() }
    }
}

/// The first preimage the circuit hashes is made of the public input's chain
/// id and roots followed by the batch data hash; its keccak digest is the
/// public input's batch hash, and the keccak digest of the second preimage is
/// the batch data hash, whenever the circuit's commitments are those of its
/// chunks.
pub proof fn lemma_batch_pi_consistency(circuit: BatchHashCircuit)
    requires
        circuit.well_formed(),
    ensures
        ({
            let pi = circuit.spec_public_input();
            let pre = circuit.spec_hash_preimages();
            &&& pre[0] == seq![pi.chain_id] + pi.first_chunk_prev_state_root@
                + pi.last_chunk_post_state_root@ + pi.last_chunk_withdraw_root@
                + circuit.batch.data_hash@
            &&& keccak256(pre[0]) == pi.batch_public_input_hash@
            &&& keccak256(pre[1]) == circuit.batch.data_hash@
        }),
{
}

/// The public input of a circuit with chunks is made of the circuit's own
/// values: its chain id, the first chunk's previous state root, the last
/// chunk's post state root and withdraw root, and the batch public input hash.
/// The first preimage the circuit hashes is laid out from the same chunk
/// roots, byte for byte in array order, followed by the batch data hash.
pub proof fn lemma_public_input_roots(circuit: BatchHashCircuit)
    requires
        circuit.chunks@.len() > 0,
    ensures
        ({
            let pi = circuit.spec_public_input();
            let k = circuit.chunks@.len();
            &&& pi.chain_id == circuit.chain_id
            &&& pi.first_chunk_prev_state_root == circuit.chunks@[0].prev_state_root
            &&& pi.last_chunk_post_state_root == circuit.chunks@[k - 1].post_state_root
            &&& pi.last_chunk_withdraw_root == circuit.chunks@[k - 1].withdraw_root
            &&& pi.batch_public_input_hash == circuit.batch.public_input_hash
        }),
        ({
            let pre = circuit.spec_hash_preimages()[0];
            let k = circuit.chunks@.len();
            &&& pre.len() == 129
            &&& pre[0] == circuit.chain_id
            &&& forall|j: int|
                0 <= j < 32 ==> pre[1 + j] == #[trigger] circuit.chunks@[0].prev_state_root.0[j]
            &&& forall|j: int|
                0 <= j < 32 ==> pre[33 + j] == #[trigger] circuit.chunks@[k
                    - 1].post_state_root.0[j]
            &&& forall|j: int|
                0 <= j < 32 ==> pre[65 + j] == #[trigger] circuit.chunks@[k - 1].withdraw_root.0[j]
            &&& forall|j: int|
                0 <= j < 32 ==> pre[97 + j] == #[trigger] circuit.batch.data_hash.0[j]
        }),
{
    let k = circuit.chunks@.len();
    crate::batch::lemma_batch_pi_preimage_layout(
        circuit.chain_id,
        circuit.chunks@[0],
        circuit.chunks@[k - 1],
        circuit.batch.data_hash@,
    );
}

/// The circuit hashes `k + 2` preimages for `k` chunks: 129 bytes for the
/// batch public input hash, `32 * k` bytes for the batch data hash, and for
/// each chunk `i` the 129 bytes of its own public input hash preimage.
pub proof fn lemma_hash_preimages_shape(circuit: BatchHashCircuit)
    requires
        circuit.chunks@.len() > 0,
    ensures
        ({
            let pre = circuit.spec_hash_preimages();
            let k = circuit.chunks@.len();
            &&& pre.len() == k + 2
            &&& pre[0].len() == 129
            &&& pre[1].len() == 32 * k
            &&& forall|i: int|
                0 <= i < k ==> #[trigger] pre[i + 2] == chunk_pi_preimage(
                    circuit.chain_id,
                    circuit.chunks@[i],
                ) && pre[i + 2].len() == 129
            &&& forall|i: int| 0 <= i < k ==> (#[trigger] pre[i + 2])[0] == circuit.chain_id
            &&& forall|i: int, j: int|
                0 <= i < k && 0 <= j < 32 ==> pre[i + 2][1 + j]
                    == #[trigger] circuit.chunks@[i].prev_state_root.0[j]
            &&& forall|i: int, j: int|
                0 <= i < k && 0 <= j < 32 ==> pre[i + 2][33 + j]
                    == #[trigger] circuit.chunks@[i].post_state_root.0[j]
            &&& forall|i: int, j: int|
                0 <= i < k && 0 <= j < 32 ==> pre[i + 2][65 + j]
                    == #[trigger] circuit.chunks@[i].withdraw_root.0[j]
            &&& forall|i: int, j: int|
                0 <= i < k && 0 <= j < 32 ==> pre[i + 2][97 + j]
                    == #[trigger] circuit.chunks@[i].data_hash.0[j]
        }),
{
    crate::batch::lemma_batch_data_preimage(circuit.chunks@);
    assert forall|i: int| 0 <= i < circuit.chunks@.len() implies {
        let p = #[trigger] circuit.spec_hash_preimages()[i + 2];
        let c = circuit.chunks@[i];
        &&& p[0] == circuit.chain_id
        &&& forall|j: int| 0 <= j < 32 ==> p[1 + j] == #[trigger] c.prev_state_root.0[j]
        &&& forall|j: int| 0 <= j < 32 ==> p[33 + j] == #[trigger] c.post_state_root.0[j]
        &&& forall|j: int| 0 <= j < 32 ==> p[65 + j] == #[trigger] c.withdraw_root.0[j]
        &&& forall|j: int| 0 <= j < 32 ==> p[97 + j] == #[trigger] c.data_hash.0[j]
    } by {
        crate::chunk::lemma_chunk_pi_preimage_layout(circuit.chain_id, circuit.chunks@[i]);
    }
}

} // verus!
