//! 32-byte hashes and the keccak-256 digest.

use sha3::Digest;
use vstd::prelude::*;

verus! {

/// A 32-byte hash value (a state root, a withdraw root, a data hash, ...).
#[derive(Clone, Copy, Debug, PartialEq, Eq)]
pub struct H256(pub [u8; 32]);

impl View for H256 {
    type V = Seq<u8>;

    open spec fn view(&self) -> Seq<u8> {
        self.0@
    }
}

impl H256 {
    /// The 32 bytes of the hash, in order.
    pub fn as_bytes(&self) -> (res: &[u8])
        ensures
            res@ == self@,
            res@.len() == 32,
    {
        self.0.as_slice()
    }
}

impl Default for H256 {
    /// The all-zero hash.
    fn default() -> (res: Self)
        ensures
            res@ == Seq::new(32, |i: int| 0u8),
    {
        let res = H256([0u8; 32]);
        assert(res@ =~= Seq::new(32, |i: int| 0u8));
        res
    }
}

/// The keccak-256 digest of a byte string, as its 32 bytes.
pub uninterp spec fn keccak256(data: Seq<u8>) -> Seq<u8>;

/// Computes keccak-256 with `sha3::Keccak256::digest`.
///
/// Trusted: the result is taken to be `keccak256` of the input bytes; that the
/// digest is 32 bytes long is carried by the result type.
#[verifier::external_body]
pub(crate) fn keccak256_digest(data: &[u8]) -> (res: H256)
    ensures
        res@ == keccak256(data@),
{
    let out: [u8; 32] = sha3::Keccak256::digest(data).into();
    H256(out)
}

/// Appends the 32 bytes of `h` to `out`.
pub fn append_h256(out: &mut Vec<u8>, h: &H256)
    ensures
        final(out)@ == old(out)@ + h@,
{
    let bytes = h.as_bytes();
    let mut i: usize = 0;
    while i < 32
        invariant
            bytes@ == h@,
            bytes@.len() == 32,
            0 <= i <= 32,
            out@ == old(out)@ + h@.subrange(0, i as int),
        decreases 32 - i,
    {
        out.push(bytes[i]);
        i = i + 1;
        assert(h@.subrange(0, i as int) =~= h@.subrange(0, i - 1) + seq![h@[i - 1]]);
    }
    assert(h@.subrange(0, 32) =~= h@);
}

} // verus!
