use sha2::Digest;
use vstd::prelude::*;

verus! {

/// Opaque fixed-size identifier of a block: a 32-byte content hash.
#[derive(Copy, Clone, PartialEq, Eq, PartialOrd, Ord, Hash, Debug)]
pub struct CryptoHash(pub [u8; 32]);

/// The SHA-256 digest of a byte sequence. The digest is a function of the
/// bytes alone; what it is on given bytes is left to the outside hasher.
pub uninterp spec fn sha256_of(bytes: Seq<u8>) -> Seq<u8>;

/// The base58 rendering (Bitcoin alphabet) of a byte sequence. The rendering
/// is a function of the bytes alone; what it is on given bytes is left to the
/// outside encoder.
pub uninterp spec fn base58_of(bytes: Seq<u8>) -> Seq<char>;

/// Calculates a hash of a bytes slice.
pub fn hash(data: &[u8]) -> (r: CryptoHash)
    ensures
        r.0@ == sha256_of(data@),
{
    CryptoHash::hash_bytes(data)
}

impl CryptoHash {
    /// The all-zero hash.
    pub fn new() -> (r: CryptoHash)
        ensures
            r.0@.len() == 32,
            forall|i: int| 0 <= i < 32 ==> r.0@[i] == 0u8,
    {
        CryptoHash([0u8; 32])
    }

    /// Calculates hash of given bytes.
    ///
    /// Relies on sha2::Sha256::digest: the 32-byte SHA-256 digest of the
    /// input, a function of the input bytes alone.
    #[verifier::external_body]
    pub fn hash_bytes(bytes: &[u8]) -> (r: CryptoHash)
        ensures
            r.0@ == sha256_of(bytes@),
    {
        CryptoHash(sha2::Sha256::digest(bytes).into())
    }

    /// Converts the hash into a base58-encoded string.
    ///
    /// Relies on bs58::encode with the default (Bitcoin) alphabet: the
    /// base58 rendering of the 32 hash bytes, a function of them alone.
    #[verifier::external_body]
    pub fn to_base58(&self) -> (r: String)
        ensures
            r@ == base58_of(self.0@),
    {
        bs58::encode(&self.0).into_string()
    }
}

impl Default for CryptoHash {
    fn default() -> (r: CryptoHash)
        ensures
            r.0@.len() == 32,
            forall|i: int| 0 <= i < 32 ==> r.0@[i] == 0u8,
    {
        CryptoHash::new()
    }
}

} // verus!
