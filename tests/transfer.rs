use bitcoin::absolute::LockTime;
use bitcoin::{OutPoint, ScriptBuf, Sequence, Transaction, TxIn, TxOut, Txid, Witness};
use secp256k1_zkp::{PublicKey, Secp256k1, SecretKey, XOnlyPublicKey};
use transfer_sender::chain::{has_repeated_number, order_chain, serialize_chain, BackupTransaction};
use transfer_sender::error::TransferError;
use transfer_sender::extend::{check_prior_tx, create_backup_tx_to_receiver, extend_chain, Network, StatechainCoinDetails};
use transfer_sender::flow::{Endpoint, SenderStep};
use transfer_sender::hex_codec::{from_hex, to_hex};
use transfer_sender::message::{build_transfer_msg, encrypt_for_recipient};
use transfer_sender::signature::{
    get_transfer_signature, sign_statechain_id, transfer_message, verify_transfer_signature, xonly_public_key,
};
use transfer_sender::tweak::{compute_t1, parse_x1};

const ORDER: [u8; 32] = [
    0xff, 0xff, 0xff, 0xff, 0xff, 0xff, 0xff, 0xff, 0xff, 0xff, 0xff, 0xff, 0xff, 0xff, 0xff, 0xfe,
    0xba, 0xae, 0xdc, 0xe6, 0xaf, 0x48, 0xa0, 0x3b, 0xbf, 0xd2, 0x5e, 0x8c, 0xd0, 0x36, 0x41, 0x41,
];

fn scalar(last: u8) -> [u8; 32] {
    let mut a = [0u8; 32];
    a[31] = last;
    a
}

fn order_minus(k: u8) -> [u8; 32] {
    let mut a = ORDER;
    a[31] -= k;
    a
}

fn pubkey_of(sk: &[u8; 32]) -> [u8; 33] {
    let secp = Secp256k1::new();
    PublicKey::from_secret_key(&secp, &SecretKey::from_slice(sk).unwrap()).serialize()
}

fn raw_tx(lock: u32, outpoints: &[([u8; 32], u32)]) -> Vec<u8> {
    let tx = Transaction {
        version: 2,
        lock_time: LockTime::from_consensus(lock),
        input: outpoints
            .iter()
            .map(|(t, v)| TxIn {
                previous_output: OutPoint {
                    txid: <Txid as bitcoin::hashes::Hash>::from_byte_array(*t),
                    vout: *v,
                },
                script_sig: ScriptBuf::new(),
                sequence: Sequence::MAX,
                witness: Witness::new(),
            })
            .collect(),
        output: vec![TxOut { value: 10_000, script_pubkey: ScriptBuf::new() }],
    };
    bitcoin::consensus::serialize(&tx)
}

fn link(id: &str, tx_n: u32, tx: Vec<u8>) -> BackupTransaction {
    BackupTransaction {
        statechain_id: id.to_string(),
        tx_n,
        tx,
        client_public_nonce: vec![0xab, 0x01],
        blinding_factor: vec![0x0f; 4],
        recipient_address: "addr".to_string(),
    }
}

fn coin() -> StatechainCoinDetails {
    StatechainCoinDetails {
        client_seckey: scalar(5),
        client_pubkey: pubkey_of(&scalar(5)),
        amount: 100_000,
        server_pubkey: pubkey_of(&scalar(6)),
        aggregated_xonly_pubkey: [3u8; 32],
        p2tr_agg_address: "agg".to_string(),
        auth_seckey: scalar(7),
    }
}

#[test]
fn hex_encodes_lower_case() {
    assert_eq!(to_hex(&[0xde, 0xad, 0x00, 0x0f]), "dead000f");
    assert_eq!(to_hex(&[]), "");
}

#[test]
fn hex_decodes_either_case_and_refuses_others() {
    assert_eq!(from_hex("DEad00"), Some(vec![0xde, 0xad, 0x00]));
    assert_eq!(from_hex(""), Some(vec![]));
    assert_eq!(from_hex("abc"), None);
    assert_eq!(from_hex("zz"), None);
}

#[test]
fn serialize_then_decode_gives_back_the_link() {
    let tx = raw_tx(1000, &[([9u8; 32], 1)]);
    let b = link("abc123", 4, tx.clone());
    let s = b.serialize();
    assert_eq!(s.tx_n, 4);
    assert_eq!(s.tx, hex::encode(&tx));
    assert_eq!(s.client_public_nonce, "ab01");
    assert_eq!(s.blinding_factor, "0f0f0f0f");
    let (n, t, nonce, bf) = s.decode().unwrap();
    assert_eq!(n, 4);
    assert_eq!(t, tx);
    assert_eq!(nonce, vec![0xab, 0x01]);
    assert_eq!(bf, vec![0x0f; 4]);
}

#[test]
fn decode_refuses_non_hex_transport_form() {
    let mut s = link("abc123", 1, vec![1, 2]).serialize();
    s.blinding_factor = "xy".to_string();
    assert!(s.decode().is_none());
}

#[test]
fn order_chain_refuses_an_empty_chain() {
    assert_eq!(order_chain(vec![]).err(), Some(TransferError::NotFound));
}

#[test]
fn order_chain_refuses_repeated_numbers() {
    let chain = vec![link("a", 1, vec![]), link("a", 2, vec![]), link("a", 1, vec![1])];
    assert!(has_repeated_number(&chain));
    assert_eq!(order_chain(chain).err(), Some(TransferError::ProtocolViolation));
}

#[test]
fn order_chain_sorts_ascending() {
    let chain = vec![link("a", 3, vec![3]), link("a", 1, vec![1]), link("a", 2, vec![2])];
    let v = order_chain(chain).ok().unwrap();
    let ns: Vec<u32> = v.iter().map(|b| b.tx_n).collect();
    assert_eq!(ns, vec![1, 2, 3]);
    assert_eq!(v[0].tx, vec![1]);
    assert_eq!(v[2].tx, vec![3]);
}

#[test]
fn prior_tx_with_block_height_is_read() {
    let p = check_prior_tx(&raw_tx(800_000, &[([4u8; 32], 2)])).unwrap();
    assert_eq!(p.block_height, 800_000);
    assert_eq!(p.input_txid, [4u8; 32]);
    assert_eq!(p.input_vout, 2);
}

#[test]
fn prior_tx_with_time_lock_is_refused() {
    let r = check_prior_tx(&raw_tx(600_000_000, &[([4u8; 32], 2)]));
    assert_eq!(r.err(), Some(TransferError::ProtocolViolation));
    let r = check_prior_tx(&raw_tx(500_000_000, &[([4u8; 32], 2)]));
    assert_eq!(r.err(), Some(TransferError::ProtocolViolation));
    assert!(check_prior_tx(&raw_tx(499_999_999, &[([4u8; 32], 2)])).is_ok());
}

#[test]
fn prior_tx_without_lock_time_is_refused() {
    let r = check_prior_tx(&raw_tx(0, &[([4u8; 32], 2)]));
    assert_eq!(r.err(), Some(TransferError::ProtocolViolation));
    let recipient = pubkey_of(&scalar(9));
    let r = create_backup_tx_to_receiver(&raw_tx(0, &[([4u8; 32], 2)]), &recipient, "abc123", &coin(), Network::Regtest);
    assert_eq!(r.err(), Some(TransferError::ProtocolViolation));
    assert!(check_prior_tx(&raw_tx(1, &[([4u8; 32], 2)])).is_ok());
}

#[test]
fn prior_tx_with_two_inputs_is_refused() {
    let r = check_prior_tx(&raw_tx(1000, &[([4u8; 32], 2), ([5u8; 32], 0)]));
    assert_eq!(r.err(), Some(TransferError::ProtocolViolation));
}

#[test]
fn prior_tx_that_does_not_decode_is_refused() {
    assert_eq!(check_prior_tx(&[1, 2, 3]).err(), Some(TransferError::ProtocolViolation));
}

#[test]
fn backup_request_for_time_locked_prior_fails_before_signing() {
    let recipient = pubkey_of(&scalar(9));
    let r = create_backup_tx_to_receiver(
        &raw_tx(600_000_000, &[([4u8; 32], 2)]),
        &recipient,
        "abc123",
        &coin(),
        Network::Regtest,
    );
    assert_eq!(r.err(), Some(TransferError::ProtocolViolation));
}

#[test]
fn backup_request_refuses_bad_recipient_key() {
    let r = create_backup_tx_to_receiver(
        &raw_tx(1000, &[([4u8; 32], 2)]),
        &[7u8; 33],
        "abc123",
        &coin(),
        Network::Regtest,
    );
    assert_eq!(r.err(), Some(TransferError::KeyFormat));
}

#[test]
fn backup_request_carries_prior_and_coin() {
    let recipient = pubkey_of(&scalar(9));
    let q = create_backup_tx_to_receiver(
        &raw_tx(1000, &[([4u8; 32], 2)]),
        &recipient,
        "abc123",
        &coin(),
        Network::Regtest,
    )
    .ok()
    .unwrap();
    assert_eq!(q.block_height, 1000);
    assert_eq!(q.input_txid, [4u8; 32]);
    assert_eq!(q.input_vout, 2);
    assert_eq!(q.input_amount, 100_000);
    assert_eq!(q.client_seckey, scalar(5));
    assert_eq!(q.input_address, "agg");
    let secp = Secp256k1::new();
    let key = PublicKey::from_slice(&recipient).unwrap();
    let expected =
        bitcoin::Address::p2tr(&secp, key.x_only_public_key().0, None, bitcoin::Network::Regtest);
    assert_eq!(q.to_address, expected.to_string());
    assert!(q.to_address.starts_with("bcrt1p"));
    let msg = secp256k1_zkp::Message::from_hashed_data::<bitcoin::hashes::sha256::Hash>(b"abc123");
    let auth = SecretKey::from_slice(&scalar(7)).unwrap().x_only_public_key(&secp).0;
    let sig = secp256k1_zkp::schnorr::Signature::from_slice(&q.signed_statechain_id).unwrap();
    assert!(secp.verify_schnorr(&sig, &msg, &auth).is_ok());
}

#[test]
fn extend_chain_numbers_the_new_link_after_the_greatest() {
    let op = [([4u8; 32], 2)];
    let chain = order_chain(vec![link("abc123", 2, raw_tx(1000, &op)), link("abc123", 1, raw_tx(1100, &op))])
        .ok()
        .unwrap();
    let new_tx = raw_tx(999, &op);
    let v = extend_chain(chain, "abc123", new_tx.clone(), vec![1], vec![2], "dest").ok().unwrap();
    assert_eq!(v.len(), 3);
    assert_eq!(v[2].tx_n, 3);
    assert_eq!(v[2].tx, new_tx);
    assert_eq!(v[2].recipient_address, "dest");
    assert_eq!(v[1].tx_n, 2);
}

#[test]
fn extend_chain_refuses_a_lock_time_that_is_not_earlier() {
    let op = [([4u8; 32], 2)];
    let chain = vec![link("abc123", 1, raw_tx(1000, &op))];
    let r = extend_chain(chain, "abc123", raw_tx(1000, &op), vec![], vec![], "dest");
    assert_eq!(r.err(), Some(TransferError::ProtocolViolation));
}

#[test]
fn extend_chain_refuses_another_outpoint() {
    let chain = vec![link("abc123", 1, raw_tx(1000, &[([4u8; 32], 2)]))];
    let r = extend_chain(chain, "abc123", raw_tx(900, &[([4u8; 32], 3)]), vec![], vec![], "dest");
    assert_eq!(r.err(), Some(TransferError::ProtocolViolation));
}

#[test]
fn extend_chain_refuses_time_locked_prior() {
    let op = [([4u8; 32], 2)];
    let chain = vec![link("abc123", 1, raw_tx(600_000_000, &op))];
    let r = extend_chain(chain, "abc123", raw_tx(900, &op), vec![], vec![], "dest");
    assert_eq!(r.err(), Some(TransferError::ProtocolViolation));
}

#[test]
fn extend_chain_refuses_exhausted_numbers() {
    let op = [([4u8; 32], 2)];
    let chain = vec![link("abc123", u32::MAX, raw_tx(1000, &op))];
    let r = extend_chain(chain, "abc123", raw_tx(900, &op), vec![], vec![], "dest");
    assert_eq!(r.err(), Some(TransferError::ProtocolViolation));
}

#[test]
fn t1_is_the_sum_of_key_and_token() {
    assert_eq!(compute_t1(&scalar(1), &scalar(2)), Ok(scalar(3)));
    assert_eq!(compute_t1(&order_minus(1), &scalar(2)), Ok(scalar(1)));
}

#[test]
fn t1_refuses_bad_scalars() {
    assert_eq!(compute_t1(&scalar(1), &[1u8; 31]), Err(TransferError::InvalidScalar));
    assert_eq!(compute_t1(&scalar(1), &ORDER), Err(TransferError::InvalidScalar));
    assert_eq!(compute_t1(&order_minus(1), &scalar(1)), Err(TransferError::InvalidScalar));
    assert_eq!(compute_t1(&scalar(0), &scalar(1)), Err(TransferError::KeyFormat));
    assert_eq!(compute_t1(&ORDER, &scalar(1)), Err(TransferError::KeyFormat));
}

#[test]
fn t1_and_adjusted_entity_share_keep_the_combined_key() {
    let secp = Secp256k1::new();
    let o1 = scalar(11);
    let s1 = SecretKey::from_slice(&scalar(40)).unwrap();
    let x1 = [0x21u8; 32];
    let t1 = compute_t1(&o1, &x1).unwrap();
    let neg_x1 = SecretKey::from_slice(&x1).unwrap().negate();
    let s2 = s1.add_tweak(&secp256k1_zkp::Scalar::from(neg_x1)).unwrap();
    let old_combined = SecretKey::from_slice(&o1).unwrap().add_tweak(&secp256k1_zkp::Scalar::from(s1)).unwrap();
    let new_combined = SecretKey::from_slice(&t1).unwrap().add_tweak(&secp256k1_zkp::Scalar::from(s2)).unwrap();
    assert_eq!(old_combined, new_combined);
    let msg = secp256k1_zkp::Message::from_slice(&[5u8; 32]).unwrap();
    let kp = secp256k1_zkp::KeyPair::from_secret_key(&secp, &new_combined);
    let sig = secp.sign_schnorr(&msg, &kp);
    let old_key = XOnlyPublicKey::from_keypair(&secp256k1_zkp::KeyPair::from_secret_key(&secp, &old_combined)).0;
    assert!(secp.verify_schnorr(&sig, &msg, &old_key).is_ok());
}

#[test]
fn x1_token_is_parsed_from_hex() {
    let text = format!("0A{}", "0b".repeat(31));
    let mut expected = vec![0x0bu8; 32];
    expected[0] = 0x0a;
    assert_eq!(parse_x1(&text), Ok(expected));
    assert_eq!(parse_x1("0g"), Err(TransferError::InvalidScalar));
}

#[test]
fn x1_token_of_wrong_length_is_refused() {
    assert_eq!(parse_x1("0a0b"), Err(TransferError::InvalidScalar));
    assert_eq!(parse_x1(&"11".repeat(33)), Err(TransferError::InvalidScalar));
    assert_eq!(parse_x1(""), Err(TransferError::InvalidScalar));
}

#[test]
fn any_split_of_t1_keeps_the_combined_key() {
    let o1 = scalar(11);
    let s1 = SecretKey::from_slice(&scalar(40)).unwrap();
    let x1 = [0x21u8; 32];
    let t1 = SecretKey::from_slice(&compute_t1(&o1, &x1).unwrap()).unwrap();
    let o2 = SecretKey::from_slice(&[0x5au8; 32]).unwrap();
    let t2 = t1.add_tweak(&secp256k1_zkp::Scalar::from(o2.negate())).unwrap();
    let neg_x1 = SecretKey::from_slice(&x1).unwrap().negate();
    let s2 = s1
        .add_tweak(&secp256k1_zkp::Scalar::from(t2))
        .unwrap()
        .add_tweak(&secp256k1_zkp::Scalar::from(neg_x1))
        .unwrap();
    let old_combined = SecretKey::from_slice(&o1).unwrap().add_tweak(&secp256k1_zkp::Scalar::from(s1)).unwrap();
    let new_combined = o2.add_tweak(&secp256k1_zkp::Scalar::from(s2)).unwrap();
    assert_eq!(old_combined, new_combined);
}

#[test]
fn transfer_message_layout() {
    let pk = pubkey_of(&scalar(3));
    let data = transfer_message(&[1u8; 32], 0x0102_0304, &pk);
    assert_eq!(data.len(), 69);
    assert_eq!(&data[..32], &[1u8; 32]);
    assert_eq!(&data[32..36], &[4, 3, 2, 1]);
    assert_eq!(&data[36..], &pk[..]);
}

#[test]
fn transfer_signature_verifies_for_its_inputs() {
    let sk = scalar(3);
    let pk = pubkey_of(&sk);
    let sig = get_transfer_signature(&pk, &[1u8; 32], 7, &sk).unwrap();
    assert_eq!(verify_transfer_signature(&pk, &[1u8; 32], 7, &sig), Ok(true));
}

#[test]
fn transfer_signature_is_deterministic() {
    let sk = scalar(3);
    let pk = pubkey_of(&sk);
    let a = get_transfer_signature(&pk, &[1u8; 32], 7, &sk).unwrap();
    let b = get_transfer_signature(&pk, &[1u8; 32], 7, &sk).unwrap();
    assert_eq!(a, b);
    assert_eq!(sign_statechain_id(&sk, "abc123"), sign_statechain_id(&sk, "abc123"));
}

#[test]
fn xonly_key_is_the_signers_key() {
    let sk = scalar(3);
    let pk = pubkey_of(&sk);
    let k = xonly_public_key(&sk).unwrap();
    assert_eq!(&k[..], &pk[1..]);
    assert_eq!(xonly_public_key(&[0u8; 32]), Err(TransferError::KeyFormat));
}

#[test]
fn transfer_signature_fails_on_any_flipped_byte() {
    let sk = scalar(3);
    let pk = pubkey_of(&sk);
    let txid = [1u8; 32];
    let sig = get_transfer_signature(&pk, &txid, 7, &sk).unwrap();
    for i in 0..32 {
        let mut t = txid;
        t[i] ^= 0x01;
        assert_eq!(verify_transfer_signature(&pk, &t, 7, &sig), Ok(false));
    }
    for v in [6u32, 7 ^ 0x100, 7 ^ 0x10000, 7 ^ 0x1000000] {
        assert_eq!(verify_transfer_signature(&pk, &txid, v, &sig), Ok(false));
    }
    for i in 0..33 {
        let mut p = pk;
        p[i] ^= 0x01;
        assert_ne!(verify_transfer_signature(&p, &txid, 7, &sig), Ok(true));
    }
}

#[test]
fn transfer_signature_matches_an_independent_check() {
    let sk = scalar(3);
    let pk = pubkey_of(&sk);
    let sig = get_transfer_signature(&pk, &[2u8; 32], 1, &sk).unwrap();
    let mut data = vec![2u8; 32];
    data.extend_from_slice(&1u32.to_le_bytes());
    data.extend_from_slice(&pk);
    let secp = Secp256k1::new();
    let msg = secp256k1_zkp::Message::from_hashed_data::<bitcoin::hashes::sha256::Hash>(&data);
    let key = PublicKey::from_slice(&pk).unwrap().x_only_public_key().0;
    let s = secp256k1_zkp::schnorr::Signature::from_slice(&sig).unwrap();
    assert!(secp.verify_schnorr(&s, &msg, &key).is_ok());
}

#[test]
fn transfer_signature_refuses_bad_keys() {
    assert_eq!(get_transfer_signature(&pubkey_of(&scalar(3)), &[1u8; 32], 7, &[0u8; 32]), Err(TransferError::KeyFormat));
    assert_eq!(verify_transfer_signature(&[9u8; 33], &[1u8; 32], 7, &[0u8; 64]), Err(TransferError::KeyFormat));
    assert_eq!(sign_statechain_id(&ORDER, "abc123"), Err(TransferError::KeyFormat));
}

#[test]
fn encryption_opens_with_the_recipient_key() {
    let sk = scalar(8);
    let pk = pubkey_of(&sk);
    let msg = b"transfer message".to_vec();
    let c = encrypt_for_recipient(&msg, &pk).unwrap();
    assert!(c.len() > 2 * msg.len());
    let bytes = hex::decode(&c).unwrap();
    assert_eq!(ecies::decrypt(&sk, &bytes).unwrap(), msg);
}

#[test]
fn encryption_refuses_bad_recipient_key() {
    assert_eq!(encrypt_for_recipient(b"m", &[7u8; 33]), Err(TransferError::KeyFormat));
    assert!(encrypt_for_recipient(b"m", &pubkey_of(&scalar(8))).is_ok());
}

#[test]
fn message_holds_the_chain_in_order() {
    let chain = vec![link("abc123", 1, vec![1]), link("abc123", 2, vec![2])];
    let m = build_transfer_msg("abc123", &[0xaa; 64], &chain, scalar(3));
    assert_eq!(m.statechain_id, "abc123");
    assert_eq!(m.transfer_signature, "aa".repeat(64));
    assert_eq!(m.backup_transactions.len(), 2);
    assert_eq!(m.backup_transactions[0].tx, "01");
    assert_eq!(m.backup_transactions[1].tx_n, 2);
    assert_eq!(m.t1, scalar(3));
    assert_eq!(serialize_chain(&chain).len(), 2);
}

#[test]
fn flow_steps_run_in_order() {
    let mut s = SenderStep::start();
    let mut calls = Vec::new();
    while !s.is_finished() {
        if let Some(e) = s.endpoint() {
            calls.push(e);
        }
        s = s.next(true);
    }
    assert_eq!(s, SenderStep::Done);
    assert_eq!(calls, vec![Endpoint::TransferSender, Endpoint::TransferUpdateMsg]);
}

#[test]
fn empty_chain_fails_without_network_calls() {
    let s = SenderStep::start();
    assert_eq!(s.endpoint(), None);
    assert_eq!(order_chain(vec![]).err(), Some(TransferError::NotFound));
    let s = s.next(false);
    assert_eq!(s, SenderStep::Failed);
    assert!(s.is_finished());
    assert_eq!(s.next(true), SenderStep::Failed);
}

#[test]
fn failure_after_token_request_never_reaches_update() {
    let mut s = SenderStep::start();
    let mut calls = Vec::new();
    let outcomes = [true, true, true, false];
    let mut k = 0;
    while !s.is_finished() {
        if let Some(e) = s.endpoint() {
            calls.push(e);
        }
        s = s.next(outcomes[k]);
        k += 1;
    }
    assert_eq!(s, SenderStep::Failed);
    assert_eq!(calls, vec![Endpoint::TransferSender]);
}

#[test]
fn end_to_end_chain_of_one_becomes_two() {
    let op = [([4u8; 32], 2)];
    let sk = scalar(5);
    let recipient = pubkey_of(&scalar(9));
    let stored = vec![link("abc123", 1, raw_tx(1000, &op))];
    let mut step = SenderStep::start();
    let mut calls = Vec::new();
    let chain = order_chain(stored).ok().unwrap();
    step = step.next(true);
    let q = create_backup_tx_to_receiver(&chain[0].tx, &recipient, "abc123", &coin(), Network::Regtest)
        .ok()
        .unwrap();
    let chain = extend_chain(chain, "abc123", raw_tx(q.block_height - 1, &op), vec![1], vec![2], &q.to_address)
        .ok()
        .unwrap();
    step = step.next(true);
    calls.push(step.endpoint().unwrap());
    let x1 = parse_x1(&"11".repeat(32)).unwrap();
    step = step.next(true);
    let t1 = compute_t1(&sk, &x1).unwrap();
    step = step.next(true);
    let sig = get_transfer_signature(&recipient, &q.input_txid, q.input_vout, &sk).unwrap();
    let msg = build_transfer_msg("abc123", &sig, &chain, t1);
    let enc = encrypt_for_recipient(b"encoded message", &recipient).unwrap();
    assert!(!enc.is_empty());
    step = step.next(true);
    calls.push(step.endpoint().unwrap());
    step = step.next(true);
    assert_eq!(step, SenderStep::Done);
    let ns: Vec<u32> = msg.backup_transactions.iter().map(|b| b.tx_n).collect();
    assert_eq!(ns, vec![1, 2]);
    assert_eq!(calls, vec![Endpoint::TransferSender, Endpoint::TransferUpdateMsg]);
}
