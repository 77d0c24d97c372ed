use vstd::prelude::*;
use crate::chain::{
    serialize_chain, serialized_of, strictly_ascending, transport_view, BackupTransaction,
    SerializedBackupTransaction,
};
use crate::error::TransferError;
use crate::hex_codec::{hex_of, to_hex};
use crate::keys::{is_valid_pubkey, pubkey_is_valid};

verus! {

/// The payload that the sender hands to the new owner through the entity.
pub struct TransferMsg {
    pub statechain_id: String,
    /// The transfer signature as hexadecimal text.
    pub transfer_signature: String,
    /// The whole chain, the new link last, in its transport form.
    pub backup_transactions: Vec<SerializedBackupTransaction>,
    pub t1: [u8; 32],
}

/// Puts the transfer message together from the ordered chain.
pub fn build_transfer_msg(
    statechain_id: &str,
    transfer_signature: &[u8; 64],
    chain: &Vec<BackupTransaction>,
    t1: [u8; 32],
) -> (r: TransferMsg)
    ensures
        r.statechain_id@ == statechain_id@,
        r.transfer_signature@ == hex_of(transfer_signature@),
        r.backup_transactions@.len() == chain@.len(),
        forall|i: int|
            0 <= i < chain@.len() ==> transport_view(#[trigger] r.backup_transactions@[i])
                == serialized_of(chain@[i]),
        r.t1 == t1,
{
    TransferMsg {
        statechain_id: statechain_id.to_string(),
        transfer_signature: to_hex(transfer_signature),
        backup_transactions: serialize_chain(chain),
        t1,
    }
}

/// The transport forms hold the numbers of the links they come from, so a
/// message built from an ordered chain lists its links in ascending order.
pub proof fn lemma_message_links_ascending(chain: Seq<BackupTransaction>, forms: Seq<SerializedBackupTransaction>)
    requires
        strictly_ascending(chain),
        forms.len() == chain.len(),
        forall|i: int| 0 <= i < chain.len() ==> transport_view(#[trigger] forms[i]) == serialized_of(chain[i]),
    ensures
        forall|i: int, j: int| 0 <= i < j < forms.len() ==> #[trigger] forms[i].tx_n < #[trigger] forms[j].tx_n,
{
    assert forall|i: int, j: int| 0 <= i < j < forms.len() implies #[trigger] forms[i].tx_n
        < #[trigger] forms[j].tx_n by {
        assert(transport_view(forms[i]) == serialized_of(chain[i]));
        assert(transport_view(forms[j]) == serialized_of(chain[j]));
        assert(chain[i].tx_n < chain[j].tx_n);
    }
}

/// Relies on ecies::encrypt: a ciphertext for the holder of the secret key of
/// `receiver`, an ephemeral public key and a nonce and tag ahead of the
/// encrypted bytes; the ephemeral key is drawn at random.
#[verifier::external_body]
fn ecies_encrypt(receiver: &[u8; 33], msg: &[u8]) -> (r: Option<Vec<u8>>)
    ensures
        r matches Some(c) ==> c@.len() > msg@.len(),
{
    ecies::encrypt(receiver, msg).ok()
}

/// Encrypts the encoded transfer message to the new owner's authentication
/// key, as hexadecimal text. Fails with `KeyFormat` where the key bytes are no
/// key, and with `CryptoError` where the encryption itself fails.
pub fn encrypt_for_recipient(msg: &[u8], recipient: &[u8; 33]) -> (r: Result<String, TransferError>)
    ensures
        (r == Err::<String, TransferError>(TransferError::KeyFormat)) <==> !is_valid_pubkey(recipient@),
        r matches Err(e) ==> e == TransferError::KeyFormat || e == TransferError::CryptoError,
        r matches Ok(s) ==> is_valid_pubkey(recipient@) && exists|c: Seq<u8>|
            c.len() > msg@.len() && s@ == hex_of(c),
{
    if !pubkey_is_valid(recipient) {
        return Err(TransferError::KeyFormat);
    }
    match ecies_encrypt(recipient, msg) {
        Some(c) => Ok(to_hex(c.as_slice())),
        None => Err(TransferError::CryptoError),
    }
}

} // verus!
