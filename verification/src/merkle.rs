use vstd::prelude::*;

verus! {

/// The root that `tree_hash::merkle_root` computes over `bytes` for a tree of
/// at least `minimum_leaf_count` leaves.
pub uninterp spec fn spec_merkle_root(bytes: Seq<u8>, minimum_leaf_count: nat) -> Seq<u8>;

/// A field of at most 32 bytes as the leaf that stands for it: the field,
/// then zero bytes up to the length of a leaf.
pub open spec fn zero_padded_leaf(field: Seq<u8>) -> Seq<u8>
    recommends
        field.len() <= 32,
{
    Seq::new(32, |i: int| if i < field.len() { field[i] } else { 0u8 })
}

/// The root of a container of two fields, given the leaf of each: the root
/// over the first leaf followed by the second.
pub open spec fn container_root(first_leaf: Seq<u8>, second_leaf: Seq<u8>) -> Seq<u8> {
    spec_merkle_root(first_leaf + second_leaf, 2)
}

/// Calls `tree_hash::merkle_root`. The contract names the root it returns. It
/// admits inputs of at most two leaves: on these the outside function pads
/// `bytes` with zeros and either returns the one leaf or hashes the two
/// leaves once, and has no way to panic.
#[verifier::external_body]
fn merkle_root(bytes: &[u8], minimum_leaf_count: usize) -> (root: [u8; 32])
    requires
        bytes@.len() <= 64,
        minimum_leaf_count <= 2,
    ensures
        root@ == spec_merkle_root(bytes@, minimum_leaf_count as nat),
{
    tree_hash::merkle_root(bytes, minimum_leaf_count).0
}

/// Pads a field of at most 32 bytes with zeros to a whole leaf.
pub fn pad_to_leaf(field: &[u8]) -> (leaf: [u8; 32])
    requires
        field@.len() <= 32,
    ensures
        leaf@ == zero_padded_leaf(field@),
{
    let mut leaf = [0u8; 32];
    let mut i: usize = 0;
    while i < field.len()
        invariant
            i <= field@.len() <= 32,
            forall|j: int| 0 <= j < i ==> leaf@[j] == field@[j],
            forall|j: int| i <= j < 32 ==> leaf@[j] == 0u8,
        decreases field@.len() - i,
    {
        leaf[i] = field[i];
        i += 1;
    }
    leaf
}

/// Lays two leaves side by side, the first in front.
pub fn concat_leaves(first_leaf: &[u8; 32], second_leaf: &[u8; 32]) -> (leaves: [u8; 64])
    ensures
        leaves@ == first_leaf@ + second_leaf@,
{
    let mut leaves = [0u8; 64];
    let mut i: usize = 0;
    while i < 32
        invariant
            i <= 32,
            forall|j: int| 0 <= j < i ==> leaves@[j] == first_leaf@[j],
            forall|j: int| 0 <= j < i ==> leaves@[32 + j] == second_leaf@[j],
        decreases 32 - i,
    {
        leaves[i] = first_leaf[i];
        leaves[i + 32] = second_leaf[i];
        i += 1;
    }
    assert(leaves@ =~= first_leaf@ + second_leaf@);
    leaves
}

/// Hashes the two leaves of a two-field container into its root.
pub fn merkleize_pair(first_leaf: &[u8; 32], second_leaf: &[u8; 32]) -> (root: [u8; 32])
    ensures
        root@ == container_root(first_leaf@, second_leaf@),
{
    let leaves = concat_leaves(first_leaf, second_leaf);
    merkle_root(&leaves, 2)
}

/// Two pairs of leaves that lie side by side as the same 64 bytes are the
/// same pair: what is hashed for a container tells its two fields apart.
pub proof fn lemma_leaves_determine_fields(
    first_a: Seq<u8>,
    second_a: Seq<u8>,
    first_b: Seq<u8>,
    second_b: Seq<u8>,
)
    requires
        first_a.len() == 32,
        first_b.len() == 32,
        first_a + second_a == first_b + second_b,
    ensures
        first_a == first_b,
        second_a == second_b,
{
    let a = first_a + second_a;
    let b = first_b + second_b;
    assert(first_a =~= a.subrange(0, 32));
    assert(first_b =~= b.subrange(0, 32));
    assert(second_a =~= a.subrange(32, a.len() as int));
    assert(second_b =~= b.subrange(32, b.len() as int));
}

} // verus!
