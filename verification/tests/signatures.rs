//! Signature authorization, cooperative close and sender withdrawal, exercised
//! against the real cryptographic primitives: the tests sign with secp256k1
//! and hash with the same SHA-256 / BLAKE2b-256 pipeline the library consumes.

use blake2::digest::consts::U32;
use blake2::Digest as _;
use parity_scale_codec::Encode;
use secp256k1::Message;
use secp256k1::PublicKey;
use secp256k1::Secp256k1;
use secp256k1::SecretKey;

use paymentchannel::channel::Error;
use paymentchannel::channel::Paymentchannel;

const CHANNEL_ID: [u8; 32] = [0xaa; 32];
const OTHER_CHANNEL_ID: [u8; 32] = [0xbb; 32];
const RECIPIENT: [u8; 32] = [0x02; 32];
const SENDER_SECRET: [u8; 32] = [0x11; 32];
const OTHER_SECRET: [u8; 32] = [0x22; 32];

/// The identity derived from a secret key: the BLAKE2b-256 digest of the
/// compressed public key.
fn identity_of(secret: &[u8; 32]) -> [u8; 32] {
    let secp = Secp256k1::new();
    let sk = SecretKey::from_slice(secret).unwrap();
    let pk = PublicKey::from_secret_key(&secp, &sk);
    let mut hasher = blake2::Blake2b::<U32>::new();
    hasher.update(pk.serialize());
    hasher.finalize().into()
}

/// Signs the cumulative `amount` for the channel `account_id`: a recoverable
/// ECDSA signature over the SHA-256 digest of the SCALE encoding of the pair.
fn sign_amount(secret: &[u8; 32], account_id: &[u8; 32], amount: u128) -> [u8; 65] {
    let encoded = (*account_id, amount).encode();
    let mut hasher = sha2::Sha256::new();
    sha2::Digest::update(&mut hasher, &encoded);
    let digest: [u8; 32] = sha2::Digest::finalize(hasher).into();

    let secp = Secp256k1::new();
    let sk = SecretKey::from_slice(secret).unwrap();
    let msg = Message::from_slice(&digest).unwrap();
    let (recovery_id, rs) = secp.sign_ecdsa_recoverable(&msg, &sk).serialize_compact();
    let mut signature = [0u8; 65];
    signature[..64].copy_from_slice(&rs);
    signature[64] = recovery_id.to_i32() as u8;
    signature
}

fn open_channel(endowment: u128) -> Paymentchannel {
    Paymentchannel::new(RECIPIENT, 100, identity_of(&SENDER_SECRET), CHANNEL_ID, endowment)
}

#[test]
fn cooperative_close_scenario_pays_signed_amount() {
    let mut c = open_channel(200);
    let signature = sign_amount(&SENDER_SECRET, &CHANNEL_ID, 50);
    let settlement = c.close(RECIPIENT, 50, &signature).unwrap();
    assert_eq!(settlement.paid.to, RECIPIENT);
    assert_eq!(settlement.paid.amount, 50);
    assert_eq!(settlement.swept.to, identity_of(&SENDER_SECRET));
    assert_eq!(settlement.swept.amount, 150);
    assert_eq!(c.get_balance(), 0);
}

#[test]
fn close_inner_pays_redeemed_amount_and_leaves_the_rest() {
    let mut c = open_channel(200);
    let signature = sign_amount(&SENDER_SECRET, &CHANNEL_ID, 50);
    let payment = c.close_inner(RECIPIENT, 50, &signature).unwrap();
    assert_eq!(payment.to, RECIPIENT);
    assert_eq!(payment.amount, 50);
    assert_eq!(c.get_balance(), 150);
    assert_eq!(c.get_withdraw(), 0);
}

#[test]
fn close_rejects_signature_for_other_channel_identity() {
    // The same sender, recipient and amount, but the signature binds a
    // different deployed channel: it must not replay here.
    let mut c = open_channel(200);
    let signature = sign_amount(&SENDER_SECRET, &OTHER_CHANNEL_ID, 50);
    let r = c.close(RECIPIENT, 50, &signature);
    assert!(matches!(r, Err(Error::InvalidSignature)));
    assert_eq!(c.get_balance(), 200);
}

#[test]
fn close_rejects_signature_by_other_signer() {
    let mut c = open_channel(200);
    let signature = sign_amount(&OTHER_SECRET, &CHANNEL_ID, 50);
    let r = c.close(RECIPIENT, 50, &signature);
    assert!(matches!(r, Err(Error::InvalidSignature)));
}

#[test]
fn close_rejects_insufficient_balance() {
    let mut c = open_channel(30);
    let signature = sign_amount(&SENDER_SECRET, &CHANNEL_ID, 50);
    let r = c.close(RECIPIENT, 50, &signature);
    assert!(matches!(r, Err(Error::TransferFailed)));
    assert_eq!(c.get_balance(), 30);
}

#[test]
fn withdraw_scenario_releases_funds_then_blocks_regression() {
    let sender = identity_of(&SENDER_SECRET);
    let mut c = open_channel(200);
    c.start_sender_close(sender, 0).unwrap();
    // The signature is validated against the previously withdrawn amount,
    // which is still zero here.
    let signature = sign_amount(&SENDER_SECRET, &CHANNEL_ID, 0);
    let payment = c.withdraw(sender, 20, &signature).unwrap();
    assert_eq!(payment.to, RECIPIENT);
    assert_eq!(payment.amount, 20);
    assert_eq!(c.get_withdraw(), 20);
    assert_eq!(c.get_balance(), 180);
    // The recipient cannot settle below the high-water mark.
    let low = sign_amount(&SENDER_SECRET, &CHANNEL_ID, 15);
    let r = c.close(RECIPIENT, 15, &low);
    assert!(matches!(r, Err(Error::AmountIsLessThanWithdraw)));
}

#[test]
fn withdraw_rejects_signature_over_requested_amount() {
    // The check runs against the previously withdrawn figure, not the newly
    // requested one: a signature over the request is rejected while nothing
    // has been withdrawn yet.
    let sender = identity_of(&SENDER_SECRET);
    let mut c = open_channel(200);
    c.start_sender_close(sender, 0).unwrap();
    let signature = sign_amount(&SENDER_SECRET, &CHANNEL_ID, 20);
    let r = c.withdraw(sender, 20, &signature);
    assert!(matches!(r, Err(Error::InvalidSignature)));
    assert_eq!(c.get_withdraw(), 0);
}

#[test]
fn withdraw_rejects_insufficient_balance() {
    let sender = identity_of(&SENDER_SECRET);
    let mut c = open_channel(10);
    c.start_sender_close(sender, 0).unwrap();
    let signature = sign_amount(&SENDER_SECRET, &CHANNEL_ID, 0);
    let r = c.withdraw(sender, 50, &signature);
    assert!(matches!(r, Err(Error::TransferFailed)));
    assert_eq!(c.get_withdraw(), 0);
    assert_eq!(c.get_balance(), 10);
}

#[test]
fn withdrawn_mark_is_monotonic_across_operations() {
    let sender = identity_of(&SENDER_SECRET);
    let mut c = open_channel(200);
    c.start_sender_close(sender, 0).unwrap();
    let mut last: u128 = c.get_withdraw();
    let sig0 = sign_amount(&SENDER_SECRET, &CHANNEL_ID, 0);
    c.withdraw(sender, 10, &sig0).unwrap();
    assert!(c.get_withdraw() >= last);
    last = c.get_withdraw();
    let sig10 = sign_amount(&SENDER_SECRET, &CHANNEL_ID, 10);
    c.withdraw(sender, 30, &sig10).unwrap();
    assert!(c.get_withdraw() >= last);
    last = c.get_withdraw();
    assert_eq!(last, 30);
    let sig30 = sign_amount(&SENDER_SECRET, &CHANNEL_ID, 30);
    let settlement = c.close(RECIPIENT, 30, &sig30).unwrap();
    assert_eq!(settlement.paid.amount, 0);
    assert_eq!(settlement.swept.amount, 170);
}
