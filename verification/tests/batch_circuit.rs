use aggregator::batch::{batch_data_hash_preimage, batch_pi_hash_preimage, BatchHash};
use aggregator::chunk::ChunkHash;
use aggregator::circuit::{link_chunk_roots, BatchHashCircuit};
use aggregator::hash::H256;
use rand::rngs::StdRng;
use rand::SeedableRng;
use sha3::{Digest, Keccak256};

fn keccak(data: &[u8]) -> H256 {
    H256(Keccak256::digest(data).into())
}

fn h(byte: u8) -> H256 {
    H256([byte; 32])
}

fn chunk(base: u8) -> ChunkHash {
    ChunkHash {
        prev_state_root: h(base),
        post_state_root: h(base + 1),
        withdraw_root: h(base + 2),
        data_hash: h(base + 3),
    }
}

fn sample_chunks() -> Vec<ChunkHash> {
    let mut c0 = chunk(10);
    let mut c1 = chunk(20);
    let mut c2 = chunk(30);
    c0.post_state_root = h(11);
    c1.prev_state_root = h(11);
    c1.post_state_root = h(21);
    c2.prev_state_root = h(21);
    vec![c0, c1, c2]
}

fn pi_preimage(chain_id: u8, prev: &H256, post: &H256, withdraw: &H256, data: &H256) -> Vec<u8> {
    [&[chain_id][..], prev.as_bytes(), post.as_bytes(), withdraw.as_bytes(), data.as_bytes()].concat()
}

#[test]
fn h256_as_bytes_and_default() {
    let x = H256([7u8; 32]);
    assert_eq!(x.as_bytes(), &[7u8; 32][..]);
    assert_eq!(H256::default(), H256([0u8; 32]));
}

#[test]
fn chunk_pi_hash_preimage_layout() {
    let c = chunk(40);
    let pre = c.pi_hash_preimage(5);
    assert_eq!(pre.len(), 129);
    assert_eq!(pre[0], 5);
    assert_eq!(&pre[1..33], &[40u8; 32][..]);
    assert_eq!(&pre[33..65], &[41u8; 32][..]);
    assert_eq!(&pre[65..97], &[42u8; 32][..]);
    assert_eq!(&pre[97..129], &[43u8; 32][..]);
}

#[test]
fn batch_data_hash_preimage_concatenates_data_hashes() {
    let chunks = sample_chunks();
    let pre = batch_data_hash_preimage(&chunks);
    assert_eq!(pre.len(), 96);
    assert_eq!(&pre[0..32], &[13u8; 32][..]);
    assert_eq!(&pre[32..64], &[23u8; 32][..]);
    assert_eq!(&pre[64..96], &[33u8; 32][..]);
    assert!(batch_data_hash_preimage(&[]).is_empty());
}

#[test]
fn batch_pi_hash_preimage_uses_first_and_last_chunk() {
    let chunks = sample_chunks();
    let data = h(99);
    let pre = batch_pi_hash_preimage(9, &chunks, &data);
    assert_eq!(pre, pi_preimage(9, &h(10), &h(31), &h(32), &data));
}

#[test]
fn batch_hash_of_one_zero_chunk() {
    let z = H256::default();
    let c = ChunkHash { prev_state_root: z, post_state_root: z, withdraw_root: z, data_hash: z };
    let batch = BatchHash::construct(&[c], 0);
    // keccak-256 of 32 zero bytes
    let expected: [u8; 32] = [
        0x29, 0x0d, 0xec, 0xd9, 0x54, 0x8b, 0x62, 0xa8, 0xd6, 0x03, 0x45, 0xa9, 0x88, 0x38, 0x6f,
        0xc8, 0x4b, 0xa6, 0xbc, 0x95, 0x48, 0x40, 0x08, 0xf6, 0x36, 0x2f, 0x93, 0x16, 0x0e, 0xf3,
        0xe5, 0x63,
    ];
    assert_eq!(batch.data_hash, H256(expected));
    assert_eq!(batch.public_input_hash, keccak(&pi_preimage(0, &z, &z, &z, &H256(expected))));
}

#[test]
fn batch_hash_construct_commits_to_chunks() {
    let chunks = sample_chunks();
    let batch = BatchHash::construct(&chunks, 3);
    let data_pre: Vec<u8> = chunks.iter().flat_map(|c| c.data_hash.0).collect();
    assert_eq!(batch.data_hash, keccak(&data_pre));
    assert_eq!(
        batch.public_input_hash,
        keccak(&pi_preimage(3, &h(10), &h(31), &h(32), &batch.data_hash))
    );
    assert_eq!(BatchHash::default().data_hash, H256([0u8; 32]));
    assert_eq!(BatchHash::default().public_input_hash, H256([0u8; 32]));
}

#[test]
fn circuit_construct_keeps_chunks_and_chain_id() {
    let chunks = sample_chunks();
    let circuit = BatchHashCircuit::construct(&chunks, 42);
    assert_eq!(circuit.chain_id, 42);
    assert_eq!(circuit.chunks, chunks);
    assert_eq!(circuit.batch, BatchHash::construct(&chunks, 42));
}

#[test]
fn circuit_public_input() {
    let chunks = sample_chunks();
    let circuit = BatchHashCircuit::construct(&chunks, 42);
    let pi = circuit.public_input();
    assert_eq!(pi.chain_id, 42);
    assert_eq!(pi.first_chunk_prev_state_root, h(10));
    assert_eq!(pi.last_chunk_post_state_root, h(31));
    assert_eq!(pi.last_chunk_withdraw_root, h(32));
    assert_eq!(pi.batch_public_input_hash, circuit.batch.public_input_hash);
}

#[test]
fn circuit_hash_preimages_order_and_layout() {
    let chunks = sample_chunks();
    let circuit = BatchHashCircuit::construct(&chunks, 42);
    let pre = circuit.extract_hash_preimages();
    assert_eq!(pre.len(), 5);
    assert_eq!(pre[0], pi_preimage(42, &h(10), &h(31), &h(32), &circuit.batch.data_hash));
    assert_eq!(pre[1], batch_data_hash_preimage(&chunks));
    for (i, c) in chunks.iter().enumerate() {
        let expected = pi_preimage(42, &c.prev_state_root, &c.post_state_root, &c.withdraw_root, &c.data_hash);
        assert_eq!(pre[i + 2], expected);
        assert_eq!(pre[i + 2].len(), 129);
    }
}

#[test]
fn circuit_batch_pi_consistency() {
    let chunks = sample_chunks();
    let circuit = BatchHashCircuit::construct(&chunks, 1);
    let pi = circuit.public_input();
    let pre = circuit.extract_hash_preimages();
    assert_eq!(keccak(&pre[0]), pi.batch_public_input_hash);
    assert_eq!(keccak(&pre[1]), circuit.batch.data_hash);
    assert_eq!(
        pre[0],
        pi_preimage(
            pi.chain_id,
            &pi.first_chunk_prev_state_root,
            &pi.last_chunk_post_state_root,
            &pi.last_chunk_withdraw_root,
            &circuit.batch.data_hash
        )
    );
}

#[test]
fn circuit_single_chunk() {
    let c = chunk(50);
    let circuit = BatchHashCircuit::construct(&[c], 2);
    let pi = circuit.public_input();
    assert_eq!(pi.first_chunk_prev_state_root, h(50));
    assert_eq!(pi.last_chunk_post_state_root, h(51));
    assert_eq!(pi.last_chunk_withdraw_root, h(52));
    let pre = circuit.extract_hash_preimages();
    assert_eq!(pre.len(), 3);
    assert_eq!(pre[1], vec![53u8; 32]);
    assert_eq!(pre[2], c.pi_hash_preimage(2));
}

#[test]
fn link_chunk_roots_chains_state_roots() {
    let chunks = vec![chunk(10), chunk(20), chunk(30)];
    let linked = link_chunk_roots(chunks.clone());
    assert_eq!(linked.len(), 3);
    assert_eq!(linked[0], chunks[0]);
    assert_eq!(linked[1].prev_state_root, h(11));
    assert_eq!(linked[2].prev_state_root, h(21));
    for i in 1..3 {
        assert_eq!(linked[i].post_state_root, chunks[i].post_state_root);
        assert_eq!(linked[i].withdraw_root, chunks[i].withdraw_root);
        assert_eq!(linked[i].data_hash, chunks[i].data_hash);
    }
    assert_eq!(link_chunk_roots(vec![chunk(1)]), vec![chunk(1)]);
}

#[test]
fn mock_batch_hash_circuit_is_linked_and_committed() {
    let mut rng = StdRng::seed_from_u64(0x5eed);
    let circuit = BatchHashCircuit::mock_batch_hash_circuit(&mut rng, 4);
    assert_eq!(circuit.chain_id, 0);
    assert_eq!(circuit.chunks.len(), 4);
    for i in 0..3 {
        assert_eq!(circuit.chunks[i + 1].prev_state_root, circuit.chunks[i].post_state_root);
    }
    assert_eq!(circuit.batch, BatchHash::construct(&circuit.chunks, 0));
    let one = BatchHashCircuit::mock_batch_hash_circuit(&mut rng, 1);
    assert_eq!(one.chunks.len(), 1);
}

#[test]
fn mock_chunk_hash_draws_from_the_generator() {
    let mut a = StdRng::seed_from_u64(1);
    let mut b = StdRng::seed_from_u64(1);
    assert_eq!(ChunkHash::mock_chunk_hash(&mut a), ChunkHash::mock_chunk_hash(&mut b));
}

#[test]
fn without_witnesses_is_empty() {
    let circuit = BatchHashCircuit::construct(&sample_chunks(), 42);
    let empty = circuit.without_witnesses();
    assert_eq!(empty.chain_id, 0);
    assert!(empty.chunks.is_empty());
    assert_eq!(empty.batch, BatchHash::default());
    let d = BatchHashCircuit::default();
    assert_eq!(d.chain_id, 0);
    assert!(d.chunks.is_empty());
}
