use vstd::prelude::*;
use bitcoin::hashes::sha256;
use secp256k1_zkp::schnorr::Signature;
use secp256k1_zkp::{KeyPair, Message, PublicKey, Scalar, Secp256k1, SecretKey, XOnlyPublicKey};

verus! {

/// The number that bytes stand for, most significant byte first.
pub open spec fn be_value(s: Seq<u8>) -> nat
    decreases s.len(),
{
    if s.len() == 0 {
        0
    } else {
        be_value(s.drop_last()) * 256 + s.last() as nat
    }
}

/// The order of the secp256k1 group.
pub open spec fn curve_order() -> nat {
    0xFFFFFFFFFFFFFFFFFFFFFFFFFFFFFFFEnat * (0x10000000000000000nat * 0x10000000000000000nat)
        + 0xBAAEDCE6AF48A03BBFD25E8CD0364141nat
}

/// Thirty-two bytes that encode a secret key: a nonzero scalar below the order.
pub open spec fn is_valid_seckey(s: Seq<u8>) -> bool {
    s.len() == 32 && 0 < be_value(s) < curve_order()
}

/// The x-only public key of the secret key in `s`.
pub uninterp spec fn xonly_key_of(s: Seq<u8>) -> Seq<u8>;

/// The BIP-340 signature, made without auxiliary randomness, on the digest
/// under the secret key in `sk`.
pub uninterp spec fn schnorr_sig_of(digest: Seq<u8>, sk: Seq<u8>) -> Seq<u8>;

/// Whether the bytes parse as a compressed public key on the curve.
pub uninterp spec fn is_valid_pubkey(pk: Seq<u8>) -> bool;

/// SHA-256 digest of the bytes.
pub uninterp spec fn sha256_of(data: Seq<u8>) -> Seq<u8>;

/// Whether BIP-340 verification accepts the signature on the digest under the
/// x-only key.
pub uninterp spec fn schnorr_accepts(sig: Seq<u8>, digest: Seq<u8>, xonly: Seq<u8>) -> bool;

/// Relies on SecretKey::from_slice: accepts exactly the nonzero scalars below
/// the curve order.
#[verifier::external_body]
pub(crate) fn seckey_is_valid(sk: &[u8; 32]) -> (r: bool)
    ensures
        r == is_valid_seckey(sk@),
{
    SecretKey::from_slice(sk).is_ok()
}

/// Relies on PublicKey::from_slice: whether the bytes are a public key.
#[verifier::external_body]
pub(crate) fn pubkey_is_valid(pk: &[u8; 33]) -> (r: bool)
    ensures
        r == is_valid_pubkey(pk@),
{
    PublicKey::from_slice(pk).is_ok()
}

/// Relies on Scalar::from_be_bytes: accepts a big-endian value below the
/// curve order.
#[verifier::external_body]
pub(crate) fn scalar_in_range(x: &[u8; 32]) -> (r: bool)
    ensures
        r == (be_value(x@) < curve_order()),
{
    Scalar::from_be_bytes(*x).is_ok()
}

/// Relies on SecretKey::add_tweak: the key plus the tweak modulo the curve
/// order, refused where that sum is zero.
#[verifier::external_body]
pub(crate) fn seckey_add_tweak(sk: &[u8; 32], tweak: &[u8; 32]) -> (r: Option<[u8; 32]>)
    requires
        is_valid_seckey(sk@),
        be_value(tweak@) < curve_order(),
    ensures
        match r {
            Some(t) => be_value(t@) == (be_value(sk@) + be_value(tweak@)) % curve_order()
                && be_value(t@) != 0,
            None => (be_value(sk@) + be_value(tweak@)) % curve_order() == 0,
        },
{
    let key = SecretKey::from_slice(sk).ok()?;
    let scalar = Scalar::from_be_bytes(*tweak).ok()?;
    key.add_tweak(&scalar).ok().map(|t| t.secret_bytes())
}

/// Relies on sha256::Hash::hash, the digest that Message::from_hashed_data signs.
#[verifier::external_body]
pub(crate) fn sha256_digest(data: &[u8]) -> (r: [u8; 32])
    ensures
        r@ == sha256_of(data@),
{
    let digest = <sha256::Hash as bitcoin::hashes::Hash>::hash(data);
    <sha256::Hash as bitcoin::hashes::Hash>::to_byte_array(digest)
}

/// Relies on KeyPair::x_only_public_key: the x-only public key of the key
/// pair of the secret key, serialized.
#[verifier::external_body]
pub(crate) fn xonly_pubkey(sk: &[u8; 32]) -> (r: [u8; 32])
    requires
        is_valid_seckey(sk@),
    ensures
        r@ == xonly_key_of(sk@),
{
    let secp = Secp256k1::new();
    let keypair = KeyPair::from_seckey_slice(&secp, sk).unwrap();
    keypair.x_only_public_key().0.serialize()
}

/// Relies on Secp256k1::sign_schnorr_no_aux_rand: a BIP-340 signature on the
/// digest under the key pair of the secret key, a function of the two alone,
/// which verification under its x-only key accepts.
#[verifier::external_body]
pub(crate) fn schnorr_sign(digest: &[u8; 32], sk: &[u8; 32]) -> (r: [u8; 64])
    requires
        is_valid_seckey(sk@),
    ensures
        r@ == schnorr_sig_of(digest@, sk@),
        schnorr_accepts(r@, digest@, xonly_key_of(sk@)),
{
    let secp = Secp256k1::new();
    let keypair = KeyPair::from_seckey_slice(&secp, sk).unwrap();
    let msg = Message::from_slice(digest).unwrap();
    *secp.sign_schnorr_no_aux_rand(&msg, &keypair).as_ref()
}

/// Relies on Secp256k1::verify_schnorr; key bytes that are no x-only key are
/// refused.
#[verifier::external_body]
pub(crate) fn schnorr_verify(sig: &[u8; 64], digest: &[u8; 32], xonly: &[u8; 32]) -> (r: bool)
    ensures
        r == schnorr_accepts(sig@, digest@, xonly@),
{
    let secp = Secp256k1::verification_only();
    let msg = Message::from_slice(digest).unwrap();
    match (XOnlyPublicKey::from_slice(xonly), Signature::from_slice(sig)) {
        (Ok(key), Ok(s)) => secp.verify_schnorr(&s, &msg, &key).is_ok(),
        _ => false,
    }
}

} // verus!
