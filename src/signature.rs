use vstd::prelude::*;
use vstd::string::StringSliceAdditionalSpecFns;
use crate::error::TransferError;
use crate::keys::{
    is_valid_pubkey, is_valid_seckey, pubkey_is_valid, schnorr_accepts, schnorr_sig_of, schnorr_sign,
    schnorr_verify, seckey_is_valid, sha256_digest, sha256_of, xonly_key_of, xonly_pubkey,
};

verus! {

/// Four bytes of `v`, least significant first.
pub open spec fn u32_le(v: u32) -> Seq<u8> {
    seq![
        (v % 256) as u8,
        ((v / 256) % 256) as u8,
        ((v / 65536) % 256) as u8,
        (v / 16777216) as u8,
    ]
}

/// What the transfer signature covers: the funding outpoint's txid, its vout
/// as four little-endian bytes, and the recipient's compressed public key.
pub open spec fn transfer_data(txid: Seq<u8>, vout: u32, recipient: Seq<u8>) -> Seq<u8> {
    txid + u32_le(vout) + recipient
}

/// The digest that the transfer signature signs.
pub open spec fn transfer_digest(txid: Seq<u8>, vout: u32, recipient: Seq<u8>) -> Seq<u8> {
    sha256_of(transfer_data(txid, vout, recipient))
}

/// The x-only form of a compressed public key: its bytes after the parity byte.
pub open spec fn xonly_of_compressed(pk: Seq<u8>) -> Seq<u8> {
    pk.subrange(1, 33)
}

/// Whether `sig` is a transfer signature by the holder of `seckey` that binds
/// the outpoint to `recipient`.
pub open spec fn is_transfer_signature(
    sig: Seq<u8>,
    txid: Seq<u8>,
    vout: u32,
    recipient: Seq<u8>,
    seckey: Seq<u8>,
) -> bool {
    schnorr_accepts(sig, transfer_digest(txid, vout, recipient), xonly_key_of(seckey))
}

/// What the verification of a transfer signature answers: whether it verifies
/// under the recipient's own x-only key.
pub open spec fn transfer_verifies(sig: Seq<u8>, txid: Seq<u8>, vout: u32, recipient: Seq<u8>) -> bool {
    schnorr_accepts(sig, transfer_digest(txid, vout, recipient), xonly_of_compressed(recipient))
}

/// Appends the bytes of `b` to `v`.
pub fn append_bytes(v: &mut Vec<u8>, b: &[u8])
    ensures
        final(v)@ == old(v)@ + b@,
{
    let mut i: usize = 0;
    while i < b.len()
        invariant
            i <= b@.len(),
            v@ == old(v)@ + b@.subrange(0, i as int),
        decreases b@.len() - i,
    {
        v.push(b[i]);
        i = i + 1;
        assert(v@ =~= old(v)@ + b@.subrange(0, i as int));
    }
    assert(b@.subrange(0, b@.len() as int) =~= b@);
}

/// The bytes that the transfer signature covers.
pub fn transfer_message(txid: &[u8; 32], vout: u32, recipient: &[u8; 33]) -> (r: Vec<u8>)
    ensures
        r@ == transfer_data(txid@, vout, recipient@),
{
    let mut data: Vec<u8> = Vec::new();
    append_bytes(&mut data, txid);
    let le: [u8; 4] = [
        (vout % 256) as u8,
        ((vout / 256) % 256) as u8,
        ((vout / 65536) % 256) as u8,
        (vout / 16777216) as u8,
    ];
    append_bytes(&mut data, &le);
    append_bytes(&mut data, recipient);
    assert(le@ =~= u32_le(vout));
    data
}

/// Signs the funding outpoint together with the recipient's public key under
/// the client's secret key. Fails with `KeyFormat` exactly when the secret key
/// bytes are no key.
pub fn get_transfer_signature(
    new_user_pubkey: &[u8; 33],
    input_txid: &[u8; 32],
    input_vout: u32,
    client_seckey: &[u8; 32],
) -> (r: Result<[u8; 64], TransferError>)
    ensures
        r is Ok <==> is_valid_seckey(client_seckey@),
        r matches Err(e) ==> e == TransferError::KeyFormat,
        r matches Ok(sig) ==> sig@ == schnorr_sig_of(
            transfer_digest(input_txid@, input_vout, new_user_pubkey@),
            client_seckey@,
        ),
        r matches Ok(sig) ==> is_transfer_signature(
            sig@,
            input_txid@,
            input_vout,
            new_user_pubkey@,
            client_seckey@,
        ),
{
    if !seckey_is_valid(client_seckey) {
        return Err(TransferError::KeyFormat);
    }
    let data = transfer_message(input_txid, input_vout, new_user_pubkey);
    let digest = sha256_digest(data.as_slice());
    Ok(schnorr_sign(&digest, client_seckey))
}

/// Checks a transfer signature against the recipient's key: the digest is
/// computed as for signing, and the signature is checked under the x-only form
/// of that key. Fails with `KeyFormat` exactly when the key bytes are no key.
pub fn verify_transfer_signature(
    new_user_pubkey: &[u8; 33],
    input_txid: &[u8; 32],
    input_vout: u32,
    signature: &[u8; 64],
) -> (r: Result<bool, TransferError>)
    ensures
        r is Ok <==> is_valid_pubkey(new_user_pubkey@),
        r matches Err(e) ==> e == TransferError::KeyFormat,
        r matches Ok(b) ==> b == transfer_verifies(
            signature@,
            input_txid@,
            input_vout,
            new_user_pubkey@,
        ),
{
    if !pubkey_is_valid(new_user_pubkey) {
        return Err(TransferError::KeyFormat);
    }
    let data = transfer_message(input_txid, input_vout, new_user_pubkey);
    let digest = sha256_digest(data.as_slice());
    let mut xonly: [u8; 32] = [0u8; 32];
    let mut i: usize = 0;
    while i < 32
        invariant
            i <= 32,
            xonly@.len() == 32,
            forall|j: int| 0 <= j < i ==> xonly@[j] == new_user_pubkey@[j + 1],
        decreases 32 - i,
    {
        xonly[i] = new_user_pubkey[i + 1];
        i = i + 1;
    }
    assert(xonly@ =~= xonly_of_compressed(new_user_pubkey@));
    Ok(schnorr_verify(signature, &digest, &xonly))
}

/// The x-only public key of a secret key: the key under which its signatures
/// verify. Fails with `KeyFormat` exactly when the bytes are no secret key.
pub fn xonly_public_key(seckey: &[u8; 32]) -> (r: Result<[u8; 32], TransferError>)
    ensures
        r is Ok <==> is_valid_seckey(seckey@),
        r matches Err(e) ==> e == TransferError::KeyFormat,
        r matches Ok(k) ==> k@ == xonly_key_of(seckey@),
{
    if !seckey_is_valid(seckey) {
        return Err(TransferError::KeyFormat);
    }
    Ok(xonly_pubkey(seckey))
}

/// A signature made for an outpoint and a recipient verifies for them, where
/// the recipient's key is the signer's own.
pub proof fn lemma_transfer_signature_verifies(
    sig: Seq<u8>,
    txid: Seq<u8>,
    vout: u32,
    recipient: Seq<u8>,
    seckey: Seq<u8>,
)
    requires
        is_transfer_signature(sig, txid, vout, recipient, seckey),
        xonly_of_compressed(recipient) == xonly_key_of(seckey),
    ensures
        transfer_verifies(sig, txid, vout, recipient),
{
}

/// The transfer signature is a function of its inputs: two signatures made
/// for the same outpoint, recipient and key are the same.
pub proof fn lemma_transfer_signature_deterministic(
    sig1: Seq<u8>,
    sig2: Seq<u8>,
    txid: Seq<u8>,
    vout: u32,
    recipient: Seq<u8>,
    seckey: Seq<u8>,
)
    requires
        sig1 == schnorr_sig_of(transfer_digest(txid, vout, recipient), seckey),
        sig2 == schnorr_sig_of(transfer_digest(txid, vout, recipient), seckey),
    ensures
        sig1 == sig2,
{
}

/// Signs the SHA-256 digest of the statechain id's bytes with the
/// authentication key: the proof of ownership shown to the co-signing entity.
pub fn sign_statechain_id(auth_seckey: &[u8; 32], statechain_id: &str) -> (r: Result<
    [u8; 64],
    TransferError,
>)
    ensures
        r is Ok <==> is_valid_seckey(auth_seckey@),
        r matches Err(e) ==> e == TransferError::KeyFormat,
        r matches Ok(sig) ==> sig@ == schnorr_sig_of(sha256_of(statechain_id.spec_bytes()), auth_seckey@),
        r matches Ok(sig) ==> schnorr_accepts(
            sig@,
            sha256_of(statechain_id.spec_bytes()),
            xonly_key_of(auth_seckey@),
        ),
{
    if !seckey_is_valid(auth_seckey) {
        return Err(TransferError::KeyFormat);
    }
    let digest = sha256_digest(statechain_id.as_bytes());
    Ok(schnorr_sign(&digest, auth_seckey))
}

} // verus!
