use vstd::prelude::*;
use crate::chain::{lemma_max_of_ascending, max_tx_n, strictly_ascending, BackupTransaction};
use crate::error::TransferError;
use crate::keys::{is_valid_pubkey, is_valid_seckey, pubkey_is_valid, schnorr_accepts, sha256_of, xonly_key_of};
use crate::signature::sign_statechain_id;
use vstd::string::StringSliceAdditionalSpecFns;

verus! {

/// The lock time and the spent outpoints (txid bytes, vout) of a transaction
/// in consensus encoding, where the bytes are one.
pub uninterp spec fn decoded_tx_of(raw: Seq<u8>) -> Option<(u32, Seq<([u8; 32], u32)>)>;

/// The taproot address, with no script tree, of the x-only form of a public key.
pub uninterp spec fn p2tr_address_of(pubkey: Seq<u8>, network: Network) -> Seq<char>;

/// Consensus lock times below this value are block heights; the others are times.
pub open spec fn lock_time_threshold() -> u32 {
    500_000_000
}

/// The Bitcoin network that addresses are made for.
#[derive(Debug, Clone, Copy, PartialEq, Eq)]
pub enum Network {
    Bitcoin,
    Testnet,
    Signet,
    Regtest,
}

/// Relies on bitcoin::consensus::deserialize for a Transaction, which refuses
/// bytes that are not exactly one encoded transaction: its consensus lock time
/// and the outpoint that each input spends.
#[verifier::external_body]
fn decode_tx(raw: &[u8]) -> (r: Option<(u32, Vec<([u8; 32], u32)>)>)
    ensures
        match r {
            Some((lock, inputs)) => decoded_tx_of(raw@) == Some((lock, inputs@)),
            None => decoded_tx_of(raw@) is None,
        },
{
    let tx: bitcoin::Transaction = bitcoin::consensus::deserialize(raw).ok()?;
    let inputs = tx.input.iter().map(|i| (
        <bitcoin::Txid as bitcoin::hashes::Hash>::to_byte_array(i.previous_output.txid),
        i.previous_output.vout,
    )).collect();
    Some((tx.lock_time.to_consensus_u32(), inputs))
}

/// Relies on absolute::LockTime::is_block_height: a consensus value below the
/// threshold is a block height.
#[verifier::external_body]
fn is_block_height(lock: u32) -> (r: bool)
    ensures
        r == (lock < lock_time_threshold()),
{
    bitcoin::absolute::LockTime::from_consensus(lock).is_block_height()
}

/// Relies on Address::p2tr with no merkle root, on the x-only form of the key.
#[verifier::external_body]
fn p2tr_address(pubkey: &[u8; 33], network: Network) -> (r: String)
    requires
        is_valid_pubkey(pubkey@),
    ensures
        r@ == p2tr_address_of(pubkey@, network),
{
    let key = secp256k1_zkp::PublicKey::from_slice(pubkey).unwrap();
    let net = match network {
        Network::Bitcoin => bitcoin::Network::Bitcoin,
        Network::Testnet => bitcoin::Network::Testnet,
        Network::Signet => bitcoin::Network::Signet,
        Network::Regtest => bitcoin::Network::Regtest,
    };
    let secp = secp256k1_zkp::Secp256k1::verification_only();
    bitcoin::Address::p2tr(&secp, key.x_only_public_key().0, None, net).to_string()
}

/// What a backup transaction holds that the next link depends on.
#[derive(Debug, Clone, Copy, PartialEq, Eq)]
pub struct PriorBackup {
    /// Its lock time, a block height.
    pub block_height: u32,
    /// The funding outpoint that the whole chain spends.
    pub input_txid: [u8; 32],
    pub input_vout: u32,
}

/// A backup transaction can be extended: it decodes, it has a lock time and
/// that lock time is a block height, and it has exactly one input; then what the next link builds on.
pub open spec fn prior_of(raw: Seq<u8>) -> Option<(u32, [u8; 32], u32)> {
    match decoded_tx_of(raw) {
        Some((lock, inputs)) => if 0 < lock && lock < lock_time_threshold() && inputs.len() == 1 {
            Some((lock, inputs[0].0, inputs[0].1))
        } else {
            None
        },
        None => None,
    }
}

/// Reads the most recent backup transaction. Fails with `ProtocolViolation`
/// where it does not decode, it has no lock time (zero), its lock time is no
/// block height, or it has other than one input.
pub fn check_prior_tx(raw: &[u8]) -> (r: Result<PriorBackup, TransferError>)
    ensures
        match r {
            Ok(p) => prior_of(raw@) == Some((p.block_height, p.input_txid, p.input_vout)),
            Err(e) => prior_of(raw@) is None && e == TransferError::ProtocolViolation,
        },
{
    match decode_tx(raw) {
        None => Err(TransferError::ProtocolViolation),
        Some((lock, inputs)) => {
            if lock == 0 || !is_block_height(lock) {
                return Err(TransferError::ProtocolViolation);
            }
            if inputs.len() != 1 {
                return Err(TransferError::ProtocolViolation);
            }
            let (txid, vout) = inputs[0];
            Ok(PriorBackup { block_height: lock, input_txid: txid, input_vout: vout })
        },
    }
}

/// The key material of a coin, as the backup-chain store holds it.
pub struct StatechainCoinDetails {
    pub client_seckey: [u8; 32],
    pub client_pubkey: [u8; 33],
    pub amount: u64,
    pub server_pubkey: [u8; 33],
    pub aggregated_xonly_pubkey: [u8; 32],
    pub p2tr_agg_address: String,
    pub auth_seckey: [u8; 32],
}

/// What the two-party signing routine needs to build the next backup
/// transaction, and the signature that authenticates the request.
pub struct BackupTxRequest {
    /// The prior link's lock height; the new link must lock strictly earlier.
    pub block_height: u32,
    pub input_txid: [u8; 32],
    pub input_vout: u32,
    pub client_seckey: [u8; 32],
    pub client_pubkey: [u8; 33],
    pub server_pubkey: [u8; 33],
    pub input_pubkey: [u8; 32],
    pub input_address: String,
    pub input_amount: u64,
    pub to_address: String,
    pub signed_statechain_id: [u8; 64],
}

/// Prepares the next backup transaction to the new owner from the most recent
/// one. Fails with `ProtocolViolation` where that transaction cannot be
/// extended, then with `KeyFormat` where the recipient's key or the coin's
/// authentication key is no key.
pub fn create_backup_tx_to_receiver(
    tx1: &[u8],
    new_user_pubkey: &[u8; 33],
    statechain_id: &str,
    coin: &StatechainCoinDetails,
    network: Network,
) -> (r: Result<BackupTxRequest, TransferError>)
    ensures
        prior_of(tx1@) is None ==> r == Err::<BackupTxRequest, TransferError>(
            TransferError::ProtocolViolation,
        ),
        prior_of(tx1@) is Some && !(is_valid_pubkey(new_user_pubkey@) && is_valid_seckey(
            coin.auth_seckey@,
        )) ==> r == Err::<BackupTxRequest, TransferError>(TransferError::KeyFormat),
        prior_of(tx1@) is Some && is_valid_pubkey(new_user_pubkey@) && is_valid_seckey(
            coin.auth_seckey@,
        ) ==> r is Ok,
        r matches Ok(q) ==> {
            &&& prior_of(tx1@) == Some((q.block_height, q.input_txid, q.input_vout))
            &&& q.to_address@ == p2tr_address_of(new_user_pubkey@, network)
            &&& schnorr_accepts(
                q.signed_statechain_id@,
                sha256_of(statechain_id.spec_bytes()),
                xonly_key_of(coin.auth_seckey@),
            )
            &&& q.client_seckey == coin.client_seckey
            &&& q.client_pubkey == coin.client_pubkey
            &&& q.server_pubkey == coin.server_pubkey
            &&& q.input_pubkey == coin.aggregated_xonly_pubkey
            &&& q.input_address@ == coin.p2tr_agg_address@
            &&& q.input_amount == coin.amount
        },
{
    let prior = check_prior_tx(tx1)?;
    if !pubkey_is_valid(new_user_pubkey) {
        return Err(TransferError::KeyFormat);
    }
    let signed_statechain_id = sign_statechain_id(&coin.auth_seckey, statechain_id)?;
    let to_address = p2tr_address(new_user_pubkey, network);
    Ok(BackupTxRequest {
        block_height: prior.block_height,
        input_txid: prior.input_txid,
        input_vout: prior.input_vout,
        client_seckey: coin.client_seckey,
        client_pubkey: coin.client_pubkey,
        server_pubkey: coin.server_pubkey,
        input_pubkey: coin.aggregated_xonly_pubkey,
        input_address: coin.p2tr_agg_address.clone(),
        input_amount: coin.amount,
        to_address,
        signed_statechain_id,
    })
}

/// Whether two 32-byte strings are equal.
fn same_bytes(a: &[u8; 32], b: &[u8; 32]) -> (r: bool)
    ensures
        r == (a@ == b@),
{
    let mut i: usize = 0;
    while i < 32
        invariant
            i <= 32,
            a@.len() == 32,
            b@.len() == 32,
            forall|j: int| 0 <= j < i ==> a@[j] == b@[j],
        decreases 32 - i,
    {
        if a[i] != b[i] {
            return false;
        }
        i = i + 1;
    }
    assert(a@ =~= b@);
    true
}

/// The new link is a valid successor of `prior`: it decodes, locks at a block
/// height strictly below the prior one, and spends the same single outpoint.
pub open spec fn is_successor(prior: Seq<u8>, new_tx: Seq<u8>) -> bool {
    match (prior_of(prior), prior_of(new_tx)) {
        (Some((h0, txid0, vout0)), Some((h1, txid1, vout1))) => h1 < h0 && txid1@ == txid0@ && vout1
            == vout0,
        _ => false,
    }
}

/// Appends the newly signed backup transaction to the ordered chain, numbered
/// one above the greatest number there. Fails with `ProtocolViolation` where
/// it is no valid successor of the most recent link, or where the numbers are
/// used up.
pub fn extend_chain(
    chain: Vec<BackupTransaction>,
    statechain_id: &str,
    new_tx: Vec<u8>,
    client_public_nonce: Vec<u8>,
    blinding_factor: Vec<u8>,
    recipient_address: &str,
) -> (r: Result<Vec<BackupTransaction>, TransferError>)
    requires
        chain@.len() > 0,
        strictly_ascending(chain@),
    ensures
        (is_successor(chain@.last().tx@, new_tx@) && max_tx_n(chain@) < u32::MAX) <==> r is Ok,
        r matches Err(e) ==> e == TransferError::ProtocolViolation,
        r matches Ok(v) ==> {
            &&& v@.len() == chain@.len() + 1
            &&& v@.subrange(0, chain@.len() as int) == chain@
            &&& v@.last().tx_n == max_tx_n(chain@) + 1
            &&& v@.last().statechain_id@ == statechain_id@
            &&& v@.last().tx@ == new_tx@
            &&& v@.last().client_public_nonce@ == client_public_nonce@
            &&& v@.last().blinding_factor@ == blinding_factor@
            &&& v@.last().recipient_address@ == recipient_address@
            &&& strictly_ascending(v@)
        },
{
    proof {
        lemma_max_of_ascending(chain@);
    }
    let last = chain.len() - 1;
    let prior = match check_prior_tx(chain[last].tx.as_slice()) {
        Ok(p) => p,
        Err(e) => return Err(e),
    };
    let next = match check_prior_tx(new_tx.as_slice()) {
        Ok(p) => p,
        Err(e) => return Err(e),
    };
    if !(next.block_height < prior.block_height && same_bytes(&next.input_txid, &prior.input_txid)
        && next.input_vout == prior.input_vout) {
        return Err(TransferError::ProtocolViolation);
    }
    let top = chain[last].tx_n;
    if top == u32::MAX {
        return Err(TransferError::ProtocolViolation);
    }
    let link = BackupTransaction {
        statechain_id: statechain_id.to_string(),
        tx_n: top + 1,
        tx: new_tx,
        client_public_nonce,
        blinding_factor,
        recipient_address: recipient_address.to_string(),
    };
    let mut out = chain;
    let ghost before = out@;
    out.push(link);
    assert(out@.subrange(0, before.len() as int) =~= before);
    Ok(out)
}

} // verus!
