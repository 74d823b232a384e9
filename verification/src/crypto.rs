//! Signature authorization for the payment channel.
//!
//! A payment is authorized by an ECDSA signature over the SHA-256 digest of
//! the SCALE encoding of the pair `(channel account id, cumulative amount)`.
//! The signer's identity is the BLAKE2b-256 digest of the recovered compressed
//! public key. Binding the channel's own account id into the signed message
//! keeps a signature for one channel from being replayed against another.
//!
//! The cryptographic primitives are consumed from `ink_env` and `secp256k1` as
//! trusted black boxes: their results are given names here, not restated.

use vstd::prelude::*;

verus! {

/// A participant's on-ledger identity: a 32-byte account id.
pub type AccountId = [u8; 32];

/// The SHA-256 digest of the SCALE encoding of `(account_id, amount)`.
pub uninterp spec fn sha2_digest_of(account_id: Seq<u8>, amount: u128) -> Seq<u8>;

/// Whether 64 `r ‖ s` bytes parse as a compact ECDSA signature over the
/// secp256k1 group.
pub uninterp spec fn compact_sig_ok(rs: Seq<u8>) -> bool;

/// The compressed public key recovered from `signature` over the 32-byte
/// `message` digest, or `None` where recovery fails.
pub uninterp spec fn recovered_key_of(signature: Seq<u8>, message: Seq<u8>) -> Option<Seq<u8>>;

/// The BLAKE2b-256 digest of `data`.
pub uninterp spec fn blake2_digest_of(data: Seq<u8>) -> Seq<u8>;

/// The last byte of a 65-byte signature must carry a recovery id: either the
/// id itself (`0..=3`) or its Ethereum-style offset form (`27..=30`).
pub open spec fn recovery_byte_ok(b: u8) -> bool {
    b <= 3 || (27 <= b && b <= 30)
}

/// A signature that the recovery primitive accepts as input: 65 bytes, a
/// recovery id in its last byte, and a parseable compact `r ‖ s` part.
pub open spec fn sig_well_formed(sig: Seq<u8>) -> bool {
    &&& sig.len() == 65
    &&& recovery_byte_ok(sig[64])
    &&& compact_sig_ok(sig.subrange(0, 64))
}

/// The identity that signed `amount` for the channel with identity
/// `account_id`, or `None` where the signature is malformed or recovery fails.
pub open spec fn spec_signer(account_id: Seq<u8>, amount: u128, signature: Seq<u8>) -> Option<Seq<u8>> {
    if sig_well_formed(signature) {
        match recovered_key_of(signature, sha2_digest_of(account_id, amount)) {
            Some(key) => Some(blake2_digest_of(key)),
            None => None,
        }
    } else {
        None
    }
}

/// Relies on `ink_env::hash_encoded` with the `Sha2x256` hasher: the digest is
/// a function of the SCALE encoding of the pair alone.
#[verifier::external_body]
pub(crate) fn hash_channel_amount(account_id: &AccountId, amount: u128) -> (r: [u8; 32])
    ensures
        r@ == sha2_digest_of(account_id@, amount),
{
    let encodable = (*account_id, amount);
    let mut output = <ink_env::hash::Sha2x256 as ink_env::hash::HashOutput>::Type::default();
    ink_env::hash_encoded::<ink_env::hash::Sha2x256, ([u8; 32], u128)>(&encodable, &mut output);
    output
}

/// Relies on `secp256k1::ecdsa::RecoverableSignature::from_compact`: whether
/// the 64 `r ‖ s` bytes parse is a function of those bytes alone (the recovery
/// id handed along does not enter the parse).
#[verifier::external_body]
pub(crate) fn compact_parses(signature: &[u8; 65]) -> (r: bool)
    ensures
        r == compact_sig_ok(signature@.subrange(0, 64)),
{
    match secp256k1::ecdsa::RecoveryId::from_i32(0) {
        Ok(id) => {
            secp256k1::ecdsa::RecoverableSignature::from_compact(&signature[0..64], id).is_ok()
        }
        Err(_) => false,
    }
}

/// Relies on `ink_env::ecdsa_recover`: the recovered compressed public key is
/// a function of the signature and the message digest alone, and a failure of
/// the recovery primitive is an error. The precondition keeps out the
/// malformed signatures on which the primitive does not return.
#[verifier::external_body]
pub(crate) fn recover_key(signature: &[u8; 65], message: &[u8; 32]) -> (r: Option<[u8; 33]>)
    requires
        sig_well_formed(signature@),
    ensures
        r matches Some(k) ==> recovered_key_of(signature@, message@) matches Some(s) && k@ == s,
        r is None ==> recovered_key_of(signature@, message@) is None,
{
    let mut output = [0u8; 33];
    match ink_env::ecdsa_recover(signature, message, &mut output) {
        Ok(()) => Some(output),
        Err(_) => None,
    }
}

/// Relies on `<Blake2x256 as CryptoHash>::hash`: the digest is a function of
/// the input bytes alone.
#[verifier::external_body]
pub(crate) fn account_of_key(key: &[u8; 33]) -> (r: AccountId)
    ensures
        r@ == blake2_digest_of(key@),
{
    let mut output = [0u8; 32];
    <ink_env::hash::Blake2x256 as ink_env::hash::CryptoHash>::hash(&key[..], &mut output);
    output
}

/// Compares two account ids byte for byte.
pub(crate) fn account_eq(a: &AccountId, b: &AccountId) -> (r: bool)
    ensures
        r == (a@ == b@),
{
    let mut i: usize = 0;
    while i < 32
        invariant
            i <= 32,
            forall|j: int| 0 <= j < i ==> a@[j] == b@[j],
        decreases 32 - i,
    {
        if a[i] != b[i] {
            return false;
        }
        i = i + 1;
    }
    proof {
        assert(a@ =~= b@);
    }
    true
}

/// Derives the identity that signed `amount` for the channel with identity
/// `account_id`, or `None` where the signature is malformed or recovery fails.
pub fn signer_of(account_id: &AccountId, amount: u128, signature: &[u8; 65]) -> (r: Option<
    AccountId,
>)
    ensures
        r matches Some(id) ==> spec_signer(account_id@, amount, signature@) matches Some(s)
            && id@ == s,
        r is None ==> spec_signer(account_id@, amount, signature@) is None,
{
    let b = signature[64];
    if !(b <= 3 || (27 <= b && b <= 30)) {
        return None;
    }
    if !compact_parses(signature) {
        return None;
    }
    let digest = hash_channel_amount(account_id, amount);
    match recover_key(signature, &digest) {
        Some(key) => Some(account_of_key(&key)),
        None => None,
    }
}

} // verus!
