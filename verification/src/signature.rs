use vstd::prelude::*;
use crate::bls::SecretKey;
use crate::merkle::{merkleize_pair, pad_to_leaf};
use crate::types::{Chain, ObjectTreeHash, VerifyError};

verus! {

/// The domain separation tag of the signature scheme, mixed in where a
/// message is hashed to the curve: the ASCII text
/// `BLS_SIG_BLS12381G2_XMD:SHA-256_SSWU_RO_POP_`.
pub const BLS_DST_SIG: [u8; 43] = [
    66, 76, 83, 95, 83, 73, 71, 95, 66, 76, 83, 49, 50, 51, 56, 49, 71, 50, 95, 88, 77, 68, 58, 83,
    72, 65, 45, 50, 53, 54, 95, 83, 83, 87, 85, 95, 82, 79, 95, 80, 79, 80, 95,
];

/// The domain type of messages between proposer and builder.
pub const APPLICATION_BUILDER_DOMAIN: [u8; 4] = [0, 0, 0, 1];

pub const MAINNET_FORK_VERSION: [u8; 4] = [0, 0, 0, 0];

pub const HOLESKY_FORK_VERSION: [u8; 4] = [1, 1, 112, 0];

/// The genesis validators root that every builder domain is derived with. It
/// is zero on every chain, and is not the chain's own genesis root.
pub const GENESIS_VALIDATORS_ROOT: [u8; 32] = [
    0, 0, 0, 0, 0, 0, 0, 0, 0, 0, 0, 0, 0, 0, 0, 0, 0, 0, 0, 0, 0, 0, 0, 0, 0, 0, 0, 0, 0, 0, 0, 0,
];

pub const MAINNET_BUILDER_DOMAIN: [u8; 32] = [
    0, 0, 0, 1, 245, 165, 253, 66, 209, 106, 32, 48, 39, 152, 239, 110, 211, 9, 151, 155, 67, 0,
    61, 35, 32, 217, 240, 232, 234, 152, 49, 169,
];

pub const HOLESKY_BUILDER_DOMAIN: [u8; 32] = [
    0, 0, 0, 1, 91, 131, 162, 55, 89, 197, 96, 178, 208, 198, 69, 118, 225, 220, 252, 52, 234, 148,
    196, 152, 143, 62, 13, 159, 119, 240, 83, 135,
];

/// The fork version of each chain.
pub open spec fn spec_fork_version(chain: Chain) -> [u8; 4] {
    match chain {
        Chain::Mainnet => MAINNET_FORK_VERSION,
        Chain::Holesky => HOLESKY_FORK_VERSION,
    }
}

/// The published builder domain of each chain.
pub open spec fn spec_builder_domain(chain: Chain) -> [u8; 32] {
    match chain {
        Chain::Mainnet => MAINNET_BUILDER_DOMAIN,
        Chain::Holesky => HOLESKY_BUILDER_DOMAIN,
    }
}

/// The root of a fork data record: its fork version, padded to a leaf, and
/// its genesis validators root are the two leaves.
pub open spec fn spec_fork_data_root(
    fork_version: Seq<u8>,
    genesis_validators_root: Seq<u8>,
) -> Seq<u8> {
    crate::merkle::container_root(
        crate::merkle::zero_padded_leaf(fork_version),
        genesis_validators_root,
    )
}

/// The builder domain that belongs to a fork data root: the domain type,
/// then the first 28 bytes of the root.
pub open spec fn spec_domain_from_root(fork_data_root: Seq<u8>) -> Seq<u8> {
    APPLICATION_BUILDER_DOMAIN@ + fork_data_root.subrange(0, 28)
}

/// The builder domain of a chain as derived from its fork version.
pub open spec fn spec_compute_builder_domain(chain: Chain) -> Seq<u8> {
    spec_domain_from_root(
        spec_fork_data_root(spec_fork_version(chain)@, GENESIS_VALIDATORS_ROOT@),
    )
}

/// The root that is signed for a message with the digest `object_root` under
/// `signing_domain`: the two are the leaves of the signing data record.
pub open spec fn spec_signing_root(object_root: Seq<u8>, signing_domain: Seq<u8>) -> Seq<u8> {
    crate::merkle::container_root(object_root, signing_domain)
}

/// What verification answers once it is known whether the public key is
/// valid, whether the signature decodes, and whether the pairing check
/// holds. A bad key is reported before a bad signature, and both before a
/// failed check.
pub open spec fn spec_verification_outcome(
    key_valid: bool,
    signature_decodes: bool,
    pairing_holds: bool,
) -> Result<(), VerifyError> {
    if !key_valid {
        Err(VerifyError::InvalidPublicKey)
    } else if !signature_decodes {
        Err(VerifyError::InvalidSignature)
    } else if !pairing_holds {
        Err(VerifyError::VerificationFailed)
    } else {
        Ok(())
    }
}

/// What verifying `signature` over `msg` under `pubkey` answers. The pairing
/// check runs with the group check of the signature and the validation of
/// the public key both switched on, under `BLS_DST_SIG` and with no
/// augmentation.
pub open spec fn spec_verify_signature(
    pubkey: Seq<u8>,
    msg: Seq<u8>,
    signature: Seq<u8>,
) -> Result<(), VerifyError> {
    spec_verification_outcome(
        crate::bls::spec_key_validate(pubkey),
        crate::bls::spec_signature_from_bytes(signature),
        crate::bls::spec_verify(
            signature,
            true,
            msg,
            BLS_DST_SIG@,
            Seq::<u8>::empty(),
            pubkey,
            true,
        ),
    )
}

/// The signature of `msg` under `secret`, made under `BLS_DST_SIG` and with
/// no augmentation.
pub open spec fn spec_sign_message(secret: Seq<u8>, msg: Seq<u8>) -> Seq<u8> {
    crate::bls::spec_sign(secret, msg, BLS_DST_SIG@, Seq::<u8>::empty())
}

/// Draws 32 random bytes and derives a secret key from them.
pub fn random_secret() -> (secret_key: SecretKey)
    ensures
        exists|ikm: Seq<u8>|
            ikm.len() == 32 && secret_key@ == #[trigger] crate::bls::spec_key_gen(
                ikm,
                Seq::<u8>::empty(),
            ),
{
    let ikm = crate::bls::random_seed();
    SecretKey::from_seed(&ikm)
}

/// Answers for the three checks of verification what verification answers.
pub fn verification_outcome(key_valid: bool, signature_decodes: bool, pairing_holds: bool) -> (r:
    Result<(), VerifyError>)
    ensures
        r == spec_verification_outcome(key_valid, signature_decodes, pairing_holds),
{
    if !key_valid {
        Err(VerifyError::InvalidPublicKey)
    } else if !signature_decodes {
        Err(VerifyError::InvalidSignature)
    } else if !pairing_holds {
        Err(VerifyError::VerificationFailed)
    } else {
        Ok(())
    }
}

/// Checks that `signature` is a signature of `msg` under `pubkey`.
pub fn verify_signature(pubkey: &[u8; 48], msg: &[u8], signature: &[u8; 96]) -> (r: Result<
    (),
    VerifyError,
>)
    ensures
        r == spec_verify_signature(pubkey@, msg@, signature@),
        r == Err::<(), VerifyError>(VerifyError::InvalidPublicKey) <==> !crate::bls::spec_key_validate(
            pubkey@,
        ),
        r == Err::<(), VerifyError>(VerifyError::InvalidSignature) <==> crate::bls::spec_key_validate(
            pubkey@,
        ) && !crate::bls::spec_signature_from_bytes(signature@),
        r is Ok <==> crate::bls::spec_key_validate(pubkey@)
            && crate::bls::spec_signature_from_bytes(signature@) && crate::bls::spec_verify(
            signature@,
            true,
            msg@,
            BLS_DST_SIG@,
            Seq::<u8>::empty(),
            pubkey@,
            true,
        ),
{
    let key_valid = crate::bls::key_validate(pubkey).is_ok();
    let signature_decodes = crate::bls::signature_from_bytes(signature).is_ok();
    let pairing_holds = if key_valid && signature_decodes {
        let aug: [u8; 0] = [];
        assert(aug@ =~= Seq::<u8>::empty());
        crate::bls::verify(signature, true, msg, &BLS_DST_SIG, &aug, pubkey, true).is_ok()
    } else {
        false
    };
    verification_outcome(key_valid, signature_decodes, pairing_holds)
}

/// Signs `msg` with `secret_key`.
pub fn sign_message(secret_key: &SecretKey, msg: &[u8]) -> (signature: [u8; 96])
    ensures
        signature@ == spec_sign_message(secret_key@, msg@),
{
    secret_key.sign(msg, &BLS_DST_SIG)
}

/// The record whose root is signed: the digest of the message and the domain
/// it is signed under.
pub struct SigningData {
    pub object_root: [u8; 32],
    pub signing_domain: [u8; 32],
}

impl SigningData {
    pub fn tree_hash_root(&self) -> (root: [u8; 32])
        ensures
            root@ == spec_signing_root(self.object_root@, self.signing_domain@),
    {
        merkleize_pair(&self.object_root, &self.signing_domain)
    }
}

/// Computes the root that is signed for `msg` under `signing_domain`.
pub fn compute_signing_root(msg: &impl ObjectTreeHash, signing_domain: [u8; 32]) -> (root: [u8; 32])
    ensures
        root@ == spec_signing_root(msg.spec_tree_hash()@, signing_domain@),
{
    let object_root = msg.tree_hash();
    let signing_data = SigningData { object_root, signing_domain };
    signing_data.tree_hash_root()
}

/// The record from whose root a domain is derived.
pub struct ForkData {
    pub fork_version: [u8; 4],
    pub genesis_validators_root: [u8; 32],
}

impl ForkData {
    pub fn tree_hash_root(&self) -> (root: [u8; 32])
        ensures
            root@ == spec_fork_data_root(self.fork_version@, self.genesis_validators_root@),
    {
        let version_leaf = pad_to_leaf(&self.fork_version);
        merkleize_pair(&version_leaf, &self.genesis_validators_root)
    }
}

/// The fork version of `chain`.
pub fn fork_version(chain: Chain) -> (version: [u8; 4])
    ensures
        version == spec_fork_version(chain),
{
    match chain {
        Chain::Mainnet => MAINNET_FORK_VERSION,
        Chain::Holesky => HOLESKY_FORK_VERSION,
    }
}

/// The published builder domain of `chain`.
pub fn builder_domain(chain: Chain) -> (domain: [u8; 32])
    ensures
        domain == spec_builder_domain(chain),
{
    match chain {
        Chain::Mainnet => MAINNET_BUILDER_DOMAIN,
        Chain::Holesky => HOLESKY_BUILDER_DOMAIN,
    }
}

/// Puts the domain type in front of the first 28 bytes of a fork data root.
pub fn domain_from_root(fork_data_root: &[u8; 32]) -> (domain: [u8; 32])
    ensures
        domain@ == spec_domain_from_root(fork_data_root@),
{
    let mut domain = [0u8; 32];
    let mut i: usize = 0;
    while i < 4
        invariant
            i <= 4,
            forall|j: int| 0 <= j < i ==> domain@[j] == APPLICATION_BUILDER_DOMAIN@[j],
        decreases 4 - i,
    {
        domain[i] = APPLICATION_BUILDER_DOMAIN[i];
        i += 1;
    }
    let mut k: usize = 0;
    while k < 28
        invariant
            k <= 28,
            forall|j: int| 0 <= j < 4 ==> domain@[j] == APPLICATION_BUILDER_DOMAIN@[j],
            forall|j: int| 0 <= j < k ==> domain@[4 + j] == fork_data_root@[j],
        decreases 28 - k,
    {
        domain[k + 4] = fork_data_root[k];
        k += 1;
    }
    assert(domain@ =~= spec_domain_from_root(fork_data_root@));
    domain
}

/// Derives the builder domain of `chain` from its fork version.
pub fn compute_builder_domain(chain: Chain) -> (domain: [u8; 32])
    ensures
        domain@ == spec_compute_builder_domain(chain),
{
    let fd = ForkData {
        fork_version: fork_version(chain),
        genesis_validators_root: GENESIS_VALIDATORS_ROOT,
    };
    let fork_data_root = fd.tree_hash_root();
    domain_from_root(&fork_data_root)
}

/// Checks that `signature` is a signature of `msg` under `pubkey`, in the
/// builder domain of `chain`.
pub fn verify_signed_builder_message<T: ObjectTreeHash>(
    chain: Chain,
    pubkey: &[u8; 48],
    msg: &T,
    signature: &[u8; 96],
) -> (r: Result<(), VerifyError>)
    ensures
        r == spec_verify_signature(
            pubkey@,
            spec_signing_root(msg.spec_tree_hash()@, spec_builder_domain(chain)@),
            signature@,
        ),
{
    let domain = builder_domain(chain);
    let signing_root = compute_signing_root(msg, domain);
    verify_signature(pubkey, &signing_root, signature)
}

/// Signs `msg` with `secret_key` in the builder domain of `chain`.
pub fn sign_builder_message(chain: Chain, secret_key: &SecretKey, msg: &impl ObjectTreeHash) -> (signature:
    [u8; 96])
    ensures
        signature@ == spec_sign_message(
            secret_key@,
            spec_signing_root(msg.spec_tree_hash()@, spec_builder_domain(chain)@),
        ),
{
    let domain = builder_domain(chain);
    let signing_root = compute_signing_root(msg, domain);
    sign_message(secret_key, &signing_root)
}

/// Signing roots are a function of message and domain: the same message
/// under the same domain has the same signing root.
pub proof fn lemma_signing_root_is_deterministic<T: ObjectTreeHash>(
    msg_a: T,
    domain_a: [u8; 32],
    msg_b: T,
    domain_b: [u8; 32],
)
    requires
        msg_a == msg_b,
        domain_a == domain_b,
    ensures
        spec_signing_root(msg_a.spec_tree_hash()@, domain_a@) == spec_signing_root(
            msg_b.spec_tree_hash()@,
            domain_b@,
        ),
{
}

/// The bytes that are hashed into a signing root are different bytes as
/// soon as the digest or the domain is different. That the roots then differ
/// as well is left to the hash.
pub proof fn lemma_signing_data_separates(
    object_root_a: [u8; 32],
    domain_a: [u8; 32],
    object_root_b: [u8; 32],
    domain_b: [u8; 32],
)
    requires
        object_root_a != object_root_b || domain_a != domain_b,
    ensures
        object_root_a@ + domain_a@ != object_root_b@ + domain_b@,
{
    if object_root_a@ + domain_a@ == object_root_b@ + domain_b@ {
        crate::merkle::lemma_leaves_determine_fields(
            object_root_a@,
            domain_a@,
            object_root_b@,
            domain_b@,
        );
        assert(object_root_a =~= object_root_b);
        assert(domain_a =~= domain_b);
    }
}

/// No two chains share a published builder domain.
pub proof fn lemma_builder_domains_are_distinct(chain_a: Chain, chain_b: Chain)
    requires
        chain_a != chain_b,
    ensures
        spec_builder_domain(chain_a) != spec_builder_domain(chain_b),
{
    assert(MAINNET_BUILDER_DOMAIN@[4] == 245);
    assert(HOLESKY_BUILDER_DOMAIN@[4] == 91);
}

/// On every chain the derived builder domain and the published one begin
/// with the same four bytes, the domain type.
pub proof fn lemma_domains_begin_with_domain_type(chain: Chain)
    ensures
        spec_compute_builder_domain(chain).subrange(0, 4) == APPLICATION_BUILDER_DOMAIN@,
        spec_builder_domain(chain)@.subrange(0, 4) == APPLICATION_BUILDER_DOMAIN@,
{
    assert(spec_compute_builder_domain(chain).subrange(0, 4) =~= APPLICATION_BUILDER_DOMAIN@);
    assert(spec_builder_domain(chain)@.subrange(0, 4) =~= APPLICATION_BUILDER_DOMAIN@);
}

} // verus!
