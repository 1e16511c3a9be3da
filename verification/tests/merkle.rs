use cb_crypto::merkle::{concat_leaves, merkleize_pair, pad_to_leaf};
use cb_crypto::signature::{compute_signing_root, ForkData, SigningData, MAINNET_BUILDER_DOMAIN};
use cb_crypto::types::ObjectTreeHash;

/// SHA-256 of 64 zero bytes.
const ZERO_PAIR_ROOT: [u8; 32] = [
    0xf5, 0xa5, 0xfd, 0x42, 0xd1, 0x6a, 0x20, 0x30, 0x27, 0x98, 0xef, 0x6e, 0xd3, 0x09, 0x97, 0x9b,
    0x43, 0x00, 0x3d, 0x23, 0x20, 0xd9, 0xf0, 0xe8, 0xea, 0x98, 0x31, 0xa9, 0x27, 0x59, 0xfb, 0x4b,
];

struct Message {
    digest: [u8; 32],
}

impl ObjectTreeHash for Message {
    fn spec_tree_hash(&self) -> [u8; 32] {
        self.digest
    }

    fn tree_hash(&self) -> [u8; 32] {
        self.digest
    }
}

#[test]
fn short_field_is_padded_with_zeros() {
    let leaf = pad_to_leaf(&[1, 1, 112, 0]);
    let mut expected = [0u8; 32];
    expected[0] = 1;
    expected[1] = 1;
    expected[2] = 112;
    assert_eq!(leaf, expected);
}

#[test]
fn empty_and_full_fields_pad_to_themselves() {
    assert_eq!(pad_to_leaf(&[]), [0u8; 32]);
    let full = [0xabu8; 32];
    assert_eq!(pad_to_leaf(&full), full);
}

#[test]
fn leaves_are_laid_first_then_second() {
    let leaves = concat_leaves(&[1u8; 32], &[2u8; 32]);
    assert_eq!(&leaves[..32], &[1u8; 32][..]);
    assert_eq!(&leaves[32..], &[2u8; 32][..]);
}

#[test]
fn root_of_two_zero_leaves() {
    assert_eq!(merkleize_pair(&[0u8; 32], &[0u8; 32]), ZERO_PAIR_ROOT);
}

#[test]
fn root_is_that_of_the_outside_hasher() {
    let first = [0x11u8; 32];
    let second = [0x22u8; 32];
    let mut bytes = Vec::new();
    bytes.extend_from_slice(&first);
    bytes.extend_from_slice(&second);
    let expected = tree_hash::merkle_root(&bytes, 2);
    assert_eq!(merkleize_pair(&first, &second), expected.0);
    assert_ne!(merkleize_pair(&first, &second), merkleize_pair(&second, &first));
}

#[test]
fn fork_data_root_of_zero_record() {
    let fd = ForkData { fork_version: [0; 4], genesis_validators_root: [0; 32] };
    assert_eq!(fd.tree_hash_root(), ZERO_PAIR_ROOT);
}

#[test]
fn signing_data_root_is_root_of_its_two_fields() {
    let data = SigningData { object_root: [7u8; 32], signing_domain: MAINNET_BUILDER_DOMAIN };
    assert_eq!(data.tree_hash_root(), merkleize_pair(&[7u8; 32], &MAINNET_BUILDER_DOMAIN));
}

#[test]
fn signing_root_of_zero_digest_and_zero_domain() {
    let msg = Message { digest: [0u8; 32] };
    assert_eq!(compute_signing_root(&msg, [0u8; 32]), ZERO_PAIR_ROOT);
}

#[test]
fn thirty_two_bytes_are_their_own_digest() {
    let bytes = [9u8; 32];
    assert_eq!(bytes.tree_hash(), bytes);
    assert_eq!(
        compute_signing_root(&bytes, MAINNET_BUILDER_DOMAIN),
        compute_signing_root(&Message { digest: bytes }, MAINNET_BUILDER_DOMAIN)
    );
}
