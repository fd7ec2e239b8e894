# aggregator

Witness preparation for the batch hash circuit, verified with Verus.

- `src/hash.rs`: `H256`, a 32-byte hash, and the keccak-256 digest (computed by
  the `sha3` crate; its result is named `keccak256`).
- `src/chunk.rs`: `ChunkHash`, the four commitments of a chunk, and the preimage
  of a chunk's public input hash.
- `src/batch.rs`: `BatchHash`, the data hash and public input hash of a batch,
  and their preimages.
- `src/circuit.rs`: `BatchHashCircuit`, its public input, the ordered list of
  every keccak preimage the circuit checks, the mock circuit used in testing,
  and the consistency lemmas between them.
