//! Witness preparation for the batch hash circuit: the byte preimages of every
//! keccak hash that the circuit checks, the public input of a batch, and the
//! batch commitments themselves, with their contracts proved by Verus.

pub mod hash;
pub mod chunk;
pub mod batch;
pub mod circuit;
