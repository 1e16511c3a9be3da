use vstd::prelude::*;

verus! {

/// The networks for which builder messages can be signed.
#[derive(Clone, Copy, Debug, PartialEq, Eq, Structural)]
pub enum Chain {
    Mainnet,
    Holesky,
}

/// A message that can be signed: it gives its canonical 32-byte digest, and
/// gives the same digest every time it is asked.
pub trait ObjectTreeHash {
    /// The digest of the message.
    spec fn spec_tree_hash(&self) -> [u8; 32];

    fn tree_hash(&self) -> (root: [u8; 32])
        ensures
            root == self.spec_tree_hash(),
    ;
}

/// Thirty-two bytes are their own digest.
impl ObjectTreeHash for [u8; 32] {
    open spec fn spec_tree_hash(&self) -> [u8; 32] {
        *self
    }

    fn tree_hash(&self) -> (root: [u8; 32]) {
        *self
    }
}

/// Why a signature was not accepted.
#[derive(Clone, Copy, Debug, PartialEq, Eq, Structural)]
pub enum VerifyError {
    /// The public key bytes are not the encoding of a valid public key.
    InvalidPublicKey,
    /// The signature bytes are not the encoding of a curve point.
    InvalidSignature,
    /// Key and signature are well-formed, and the signature is not one of
    /// the key over the message.
    VerificationFailed,
}

} // verus!
