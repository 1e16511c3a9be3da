use vstd::prelude::*;
use rand::RngCore;

verus! {

/// The status code of `blst`, carried from its calls to where it is mapped.
#[verifier::external_type_specification]
#[verifier::external_body]
pub struct ExBlstError(blst::BLST_ERROR);

/// The secret scalar, as the 32 bytes of `SecretKey::to_bytes`, that
/// `SecretKey::key_gen` derives from the key material `ikm` and `key_info`.
pub uninterp spec fn spec_key_gen(ikm: Seq<u8>, key_info: Seq<u8>) -> Seq<u8>;

/// Whether `SecretKey::from_bytes` accepts `secret` as a secret scalar.
pub uninterp spec fn spec_secret_key_accepted(secret: Seq<u8>) -> bool;

/// The public key of the secret scalar `secret`, as the 48 bytes of
/// `PublicKey::to_bytes` applied to what `SecretKey::sk_to_pk` returns.
pub uninterp spec fn spec_sk_to_pk(secret: Seq<u8>) -> Seq<u8>;

/// The signature, as the 96 bytes of `Signature::to_bytes`, that
/// `SecretKey::sign` gives for `msg` under the secret scalar `secret`, with
/// the domain separation tag `dst` and the augmentation `aug`.
pub uninterp spec fn spec_sign(secret: Seq<u8>, msg: Seq<u8>, dst: Seq<u8>, aug: Seq<u8>) -> Seq<u8>;

/// Whether `PublicKey::key_validate` accepts `public_key`: the bytes decode
/// to a point that is not the point at infinity and lies in the group.
pub uninterp spec fn spec_key_validate(public_key: Seq<u8>) -> bool;

/// Whether `Signature::from_bytes` accepts `signature` as the encoding of a
/// point.
pub uninterp spec fn spec_signature_from_bytes(signature: Seq<u8>) -> bool;

/// Whether `Signature::verify` answers `BLST_SUCCESS` for the signature and
/// the public key that the given bytes decode to.
pub uninterp spec fn spec_verify(
    signature: Seq<u8>,
    sig_groupcheck: bool,
    msg: Seq<u8>,
    dst: Seq<u8>,
    aug: Seq<u8>,
    public_key: Seq<u8>,
    pk_validate: bool,
) -> bool;

/// Fills 32 bytes from `rand::thread_rng` with `RngCore::fill_bytes`.
/// Nothing is claimed of the bytes.
#[verifier::external_body]
pub(crate) fn random_seed() -> (ikm: [u8; 32]) {
    let mut ikm = [0u8; 32];
    rand::thread_rng().fill_bytes(&mut ikm);
    ikm
}

/// Calls `SecretKey::key_gen` and hands the key out as its bytes. The
/// outside function refuses key material of fewer than 32 bytes and nothing
/// else; the scalar it derives is reduced and not zero, so that
/// `SecretKey::from_bytes` accepts its bytes.
#[verifier::external_body]
pub(crate) fn key_gen(ikm: &[u8], key_info: &[u8]) -> (r: Result<[u8; 32], blst::BLST_ERROR>)
    ensures
        r.is_ok() == (ikm@.len() >= 32),
        r matches Ok(secret) ==> secret@ == spec_key_gen(ikm@, key_info@)
            && spec_secret_key_accepted(secret@),
{
    blst::min_pk::SecretKey::key_gen(ikm, key_info).map(|sk| sk.to_bytes())
}

/// Calls `SecretKey::sk_to_pk` on the key that `secret` decodes to, and hands
/// the public key out as its compressed bytes.
#[verifier::external_body]
pub(crate) fn sk_to_pk(secret: &[u8; 32]) -> (public_key: [u8; 48])
    requires
        spec_secret_key_accepted(secret@),
    ensures
        public_key@ == spec_sk_to_pk(secret@),
{
    let sk = blst::min_pk::SecretKey::from_bytes(secret).unwrap();
    sk.sk_to_pk().to_bytes()
}

/// Calls `SecretKey::sign` on the key that `secret` decodes to, and hands the
/// signature out as its compressed bytes.
#[verifier::external_body]
pub(crate) fn sign(secret: &[u8; 32], msg: &[u8], dst: &[u8], aug: &[u8]) -> (signature: [u8; 96])
    requires
        spec_secret_key_accepted(secret@),
    ensures
        signature@ == spec_sign(secret@, msg@, dst@, aug@),
{
    let sk = blst::min_pk::SecretKey::from_bytes(secret).unwrap();
    sk.sign(msg, dst, aug).to_bytes()
}

/// Calls `PublicKey::key_validate` and keeps only whether it accepted.
#[verifier::external_body]
pub(crate) fn key_validate(public_key: &[u8; 48]) -> (r: Result<(), blst::BLST_ERROR>)
    ensures
        r.is_ok() == spec_key_validate(public_key@),
{
    blst::min_pk::PublicKey::key_validate(public_key).map(|_| ())
}

/// Calls `Signature::from_bytes` and keeps only whether it accepted.
#[verifier::external_body]
pub(crate) fn signature_from_bytes(signature: &[u8; 96]) -> (r: Result<(), blst::BLST_ERROR>)
    ensures
        r.is_ok() == spec_signature_from_bytes(signature@),
{
    blst::min_pk::Signature::from_bytes(signature).map(|_| ())
}

/// Calls `Signature::verify` on the signature and the public key that the
/// bytes decode to. Both must have been accepted before: a key that
/// `PublicKey::key_validate` accepts has first passed `PublicKey::from_bytes`,
/// so neither decoding here can fail.
#[verifier::external_body]
pub(crate) fn verify(
    signature: &[u8; 96],
    sig_groupcheck: bool,
    msg: &[u8],
    dst: &[u8],
    aug: &[u8],
    public_key: &[u8; 48],
    pk_validate: bool,
) -> (r: Result<(), blst::BLST_ERROR>)
    requires
        spec_signature_from_bytes(signature@),
        spec_key_validate(public_key@),
    ensures
        r.is_ok() == spec_verify(
            signature@,
            sig_groupcheck,
            msg@,
            dst@,
            aug@,
            public_key@,
            pk_validate,
        ),
{
    let sig = blst::min_pk::Signature::from_bytes(signature).unwrap();
    let pk = blst::min_pk::PublicKey::from_bytes(public_key).unwrap();
    match sig.verify(sig_groupcheck, msg, dst, aug, &pk, pk_validate) {
        blst::BLST_ERROR::BLST_SUCCESS => Ok(()),
        err => Err(err),
    }
}

/// A secret key: a scalar that `blst` accepts, held as its 32 bytes.
pub struct SecretKey {
    scalar: [u8; 32],
}

impl View for SecretKey {
    type V = Seq<u8>;

    closed spec fn view(&self) -> Seq<u8> {
        self.scalar@
    }
}

impl SecretKey {
    #[verifier::type_invariant]
    spec fn accepted(&self) -> bool {
        spec_secret_key_accepted(self.scalar@)
    }

    /// Derives the secret key of the key material `ikm`, with no key info.
    pub fn from_seed(ikm: &[u8; 32]) -> (secret_key: SecretKey)
        ensures
            secret_key@ == spec_key_gen(ikm@, Seq::<u8>::empty()),
    {
        let key_info: [u8; 0] = [];
        assert(key_info@ =~= Seq::<u8>::empty());
        let scalar = key_gen(ikm, &key_info).unwrap();
        SecretKey { scalar }
    }

    /// The public key that belongs to this secret key.
    pub fn public_key(&self) -> (public_key: [u8; 48])
        ensures
            public_key@ == spec_sk_to_pk(self@),
    {
        proof {
            use_type_invariant(self);
        }
        sk_to_pk(&self.scalar)
    }

    /// Signs `msg` under the domain separation tag `dst`, with no
    /// augmentation.
    pub fn sign(&self, msg: &[u8], dst: &[u8]) -> (signature: [u8; 96])
        ensures
            signature@ == spec_sign(self@, msg@, dst@, Seq::<u8>::empty()),
    {
        proof {
            use_type_invariant(self);
        }
        let aug: [u8; 0] = [];
        assert(aug@ =~= Seq::<u8>::empty());
        sign(&self.scalar, msg, dst, &aug)
    }
}

} // verus!
