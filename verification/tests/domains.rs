use cb_crypto::signature::{
    builder_domain, compute_builder_domain, domain_from_root, fork_version,
    APPLICATION_BUILDER_DOMAIN, GENESIS_VALIDATORS_ROOT, HOLESKY_BUILDER_DOMAIN,
    HOLESKY_FORK_VERSION, MAINNET_BUILDER_DOMAIN, MAINNET_FORK_VERSION,
};
use cb_crypto::types::Chain;

#[test]
fn test_builder_domains() {
    assert_eq!(compute_builder_domain(Chain::Mainnet), MAINNET_BUILDER_DOMAIN);
    assert_eq!(compute_builder_domain(Chain::Holesky), HOLESKY_BUILDER_DOMAIN);
}

#[test]
fn mainnet_domain_is_reproduced_from_zero_fork_version() {
    let expected: [u8; 32] = [
        0x00, 0x00, 0x00, 0x01, 0xf5, 0xa5, 0xfd, 0x42, 0xd1, 0x6a, 0x20, 0x30, 0x27, 0x98, 0xef,
        0x6e, 0xd3, 0x09, 0x97, 0x9b, 0x43, 0x00, 0x3d, 0x23, 0x20, 0xd9, 0xf0, 0xe8, 0xea, 0x98,
        0x31, 0xa9,
    ];
    assert_eq!(fork_version(Chain::Mainnet), [0u8, 0, 0, 0]);
    assert_eq!(GENESIS_VALIDATORS_ROOT, [0u8; 32]);
    assert_eq!(compute_builder_domain(Chain::Mainnet), expected);
}

#[test]
fn published_domains_are_the_constants() {
    assert_eq!(builder_domain(Chain::Mainnet), MAINNET_BUILDER_DOMAIN);
    assert_eq!(builder_domain(Chain::Holesky), HOLESKY_BUILDER_DOMAIN);
    assert_ne!(builder_domain(Chain::Mainnet), builder_domain(Chain::Holesky));
}

#[test]
fn published_and_derived_domains_agree_on_every_chain() {
    for chain in [Chain::Mainnet, Chain::Holesky] {
        assert_eq!(compute_builder_domain(chain), builder_domain(chain));
    }
}

#[test]
fn fork_versions_are_the_constants() {
    assert_eq!(fork_version(Chain::Mainnet), MAINNET_FORK_VERSION);
    assert_eq!(fork_version(Chain::Holesky), HOLESKY_FORK_VERSION);
    assert_eq!(MAINNET_FORK_VERSION, [0, 0, 0, 0]);
    assert_eq!(HOLESKY_FORK_VERSION, [1, 1, 112, 0]);
}

#[test]
fn domain_is_type_then_28_bytes_of_root() {
    let mut root = [0u8; 32];
    for (i, byte) in root.iter_mut().enumerate() {
        *byte = 100 + i as u8;
    }
    let domain = domain_from_root(&root);
    assert_eq!(APPLICATION_BUILDER_DOMAIN, [0, 0, 0, 1]);
    assert_eq!(&domain[..4], &[0u8, 0, 0, 1][..]);
    assert_eq!(&domain[4..], &root[..28]);
    assert_eq!(domain[4], 100);
    assert_eq!(domain[31], 127);
}

#[test]
fn derived_domains_start_with_the_domain_type() {
    assert_eq!(&compute_builder_domain(Chain::Mainnet)[..4], &APPLICATION_BUILDER_DOMAIN[..]);
    assert_eq!(&compute_builder_domain(Chain::Holesky)[..4], &APPLICATION_BUILDER_DOMAIN[..]);
}
