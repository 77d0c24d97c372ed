use vstd::prelude::*;
use crate::error::TransferError;
use crate::hex_codec::{from_hex, hex_of, lemma_unhex_hex, to_hex, unhex};

verus! {

broadcast use vstd::seq_lib::group_to_multiset_ensures;

/// One link of the chain of pre-signed backup transactions of a coin.
pub struct BackupTransaction {
    pub statechain_id: String,
    /// Position in the chain, from 1 upwards.
    pub tx_n: u32,
    /// The transaction in its consensus encoding.
    pub tx: Vec<u8>,
    pub client_public_nonce: Vec<u8>,
    pub blinding_factor: Vec<u8>,
    pub recipient_address: String,
}

/// The transport form of a backup transaction inside a transfer message.
pub struct SerializedBackupTransaction {
    pub tx_n: u32,
    /// Hexadecimal consensus encoding of the transaction.
    pub tx: String,
    pub client_public_nonce: String,
    pub blinding_factor: String,
}

/// What the transport form carries: number, transaction, nonce, blinding factor.
pub type BackupContent = (u32, Seq<u8>, Seq<u8>, Seq<u8>);

/// The content of a backup transaction that travels in a transfer message.
pub open spec fn content_of(b: BackupTransaction) -> BackupContent {
    (b.tx_n, b.tx@, b.client_public_nonce@, b.blinding_factor@)
}

/// The transport form of a backup transaction.
pub open spec fn serialized_of(b: BackupTransaction) -> (u32, Seq<char>, Seq<char>, Seq<char>) {
    (b.tx_n, hex_of(b.tx@), hex_of(b.client_public_nonce@), hex_of(b.blinding_factor@))
}

/// The content that a transport form stands for, if its texts are hexadecimal.
pub open spec fn decoded_of(s: (u32, Seq<char>, Seq<char>, Seq<char>)) -> Option<BackupContent> {
    match (unhex(s.1), unhex(s.2), unhex(s.3)) {
        (Some(tx), Some(nonce), Some(bf)) => Some((s.0, tx, nonce, bf)),
        _ => None,
    }
}

/// The view of a transport form.
pub open spec fn transport_view(s: SerializedBackupTransaction) -> (u32, Seq<char>, Seq<char>, Seq<char>) {
    (s.tx_n, s.tx@, s.client_public_nonce@, s.blinding_factor@)
}

/// Decoding the transport form of a backup transaction gives back its number,
/// transaction, nonce and blinding factor.
pub proof fn lemma_serialize_round_trip(b: BackupTransaction)
    ensures
        decoded_of(serialized_of(b)) == Some(content_of(b)),
{
    lemma_unhex_hex(b.tx@);
    lemma_unhex_hex(b.client_public_nonce@);
    lemma_unhex_hex(b.blinding_factor@);
}

impl BackupTransaction {
    /// The transport form: the number, and the hexadecimal text of the
    /// transaction, the nonce and the blinding factor.
    pub fn serialize(&self) -> (r: SerializedBackupTransaction)
        ensures
            transport_view(r) == serialized_of(*self),
    {
        SerializedBackupTransaction {
            tx_n: self.tx_n,
            tx: to_hex(self.tx.as_slice()),
            client_public_nonce: to_hex(self.client_public_nonce.as_slice()),
            blinding_factor: to_hex(self.blinding_factor.as_slice()),
        }
    }
}

impl SerializedBackupTransaction {
    /// The number, transaction, nonce and blinding factor of a transport form;
    /// `None` when one of its texts is not hexadecimal.
    pub fn decode(&self) -> (r: Option<(u32, Vec<u8>, Vec<u8>, Vec<u8>)>)
        ensures
            match r {
                Some((n, tx, nonce, bf)) => decoded_of(transport_view(*self)) == Some::<
                    BackupContent,
                >((n, tx@, nonce@, bf@)),
                None => decoded_of(transport_view(*self)) is None,
            },
    {
        let tx = from_hex(self.tx.as_str());
        let nonce = from_hex(self.client_public_nonce.as_str());
        let bf = from_hex(self.blinding_factor.as_str());
        match (tx, nonce, bf) {
            (Some(tx), Some(nonce), Some(bf)) => Some((self.tx_n, tx, nonce, bf)),
            _ => None,
        }
    }
}

/// Each backup transaction has a smaller number than the next one.
pub open spec fn strictly_ascending(s: Seq<BackupTransaction>) -> bool {
    forall|i: int, j: int| 0 <= i < j < s.len() ==> #[trigger] s[i].tx_n < #[trigger] s[j].tx_n
}

/// Two backup transactions of the sequence carry the same number.
pub open spec fn has_repeated_tx_n(s: Seq<BackupTransaction>) -> bool {
    exists|i: int, j: int| 0 <= i < j < s.len() && #[trigger] s[i].tx_n == #[trigger] s[j].tx_n
}

/// The greatest number in a nonempty sequence of backup transactions.
pub open spec fn max_tx_n(s: Seq<BackupTransaction>) -> u32
    decreases s.len(),
{
    if s.len() <= 1 {
        s[0].tx_n
    } else {
        let m = max_tx_n(s.drop_last());
        if m < s.last().tx_n {
            s.last().tx_n
        } else {
            m
        }
    }
}

pub(crate) proof fn lemma_max_of_ascending(s: Seq<BackupTransaction>)
    requires
        s.len() > 0,
        strictly_ascending(s),
    ensures
        max_tx_n(s) == s.last().tx_n,
    decreases s.len(),
{
    if s.len() > 1 {
        let t = s.drop_last();
        assert(strictly_ascending(t));
        lemma_max_of_ascending(t);
        assert(t.last() == s[s.len() - 2]);
        assert(s[s.len() - 2].tx_n < s[s.len() - 1].tx_n);
    }
}

/// Whether two backup transactions carry the same number.
pub fn has_repeated_number(chain: &Vec<BackupTransaction>) -> (r: bool)
    ensures
        r == has_repeated_tx_n(chain@),
{
    let n = chain.len();
    let mut i: usize = 0;
    while i < n
        invariant
            n == chain@.len(),
            i <= n,
            forall|a: int, b: int| 0 <= a < b < n && a < i ==> chain@[a].tx_n != chain@[b].tx_n,
        decreases n - i,
    {
        let mut j: usize = i + 1;
        while j < n
            invariant
                n == chain@.len(),
                i < n,
                i + 1 <= j <= n,
                forall|a: int, b: int| 0 <= a < b < n && a < i ==> chain@[a].tx_n != chain@[b].tx_n,
                forall|b: int| i < b < j ==> chain@[i as int].tx_n != chain@[b].tx_n,
            decreases n - j,
        {
            if chain[i].tx_n == chain[j].tx_n {
                assert(chain@[i as int].tx_n == chain@[j as int].tx_n);
                return true;
            }
            j = j + 1;
        }
        i = i + 1;
    }
    false
}

/// Inserts `x` after every entry with a smaller number.
fn insert_in_order(out: &mut Vec<BackupTransaction>, x: BackupTransaction)
    requires
        strictly_ascending(old(out)@),
        forall|k: int| 0 <= k < old(out)@.len() ==> (#[trigger] old(out)@[k]).tx_n != x.tx_n,
    ensures
        strictly_ascending(final(out)@),
        final(out)@.to_multiset() == old(out)@.to_multiset().insert(x),
{
    let mut i: usize = 0;
    while i < out.len() && out[i].tx_n < x.tx_n
        invariant
            i <= out@.len(),
            out@ == old(out)@,
            forall|k: int| 0 <= k < i ==> (#[trigger] out@[k]).tx_n < x.tx_n,
        decreases out@.len() - i,
    {
        i = i + 1;
    }
    proof {
        vstd::seq_lib::to_multiset_insert(out@, i as int, x);
    }
    let ghost before = out@;
    out.insert(i, x);
    assert forall|a: int, b: int| 0 <= a < b < out@.len() implies #[trigger] out@[a].tx_n
        < #[trigger] out@[b].tx_n by {
        if b < i {
        } else if b == i {
        } else if a < i {
            assert(before[b - 1].tx_n != x.tx_n);
        } else if a == i {
            assert(before[b - 1].tx_n != x.tx_n);
            assert(before[b - 1].tx_n >= x.tx_n || b - 1 < i);
        } else {
            assert(before[a - 1].tx_n < before[b - 1].tx_n);
        }
    }
}

/// The backup transactions in ascending order of their numbers. Fails with
/// `NotFound` on an empty chain, and with `ProtocolViolation` where two of them
/// carry the same number.
pub fn order_chain(chain: Vec<BackupTransaction>) -> (r: Result<Vec<BackupTransaction>, TransferError>)
    ensures
        chain@.len() == 0 ==> r == Err::<Vec<BackupTransaction>, TransferError>(
            TransferError::NotFound,
        ),
        chain@.len() > 0 && has_repeated_tx_n(chain@) ==> r == Err::<
            Vec<BackupTransaction>,
            TransferError,
        >(TransferError::ProtocolViolation),
        chain@.len() > 0 && !has_repeated_tx_n(chain@) ==> r is Ok,
        r matches Ok(v) ==> strictly_ascending(v@) && v@.to_multiset() == chain@.to_multiset()
            && v@.len() == chain@.len(),
{
    if chain.len() == 0 {
        return Err(TransferError::NotFound);
    }
    if has_repeated_number(&chain) {
        return Err(TransferError::ProtocolViolation);
    }
    let ghost orig = chain@;
    let n = chain.len();
    let mut rest = chain;
    let mut out: Vec<BackupTransaction> = Vec::new();
    while rest.len() > 0
        invariant
            orig.len() == n,
            !has_repeated_tx_n(orig),
            rest@.len() <= n,
            rest@ == orig.subrange(0, rest@.len() as int),
            out@.to_multiset() == orig.subrange(rest@.len() as int, n as int).to_multiset(),
            strictly_ascending(out@),
        decreases rest@.len(),
    {
        let m = rest.len();
        let x = rest.pop().unwrap();
        proof {
            assert(x == orig[m - 1]);
            assert forall|k: int| 0 <= k < out@.len() implies (#[trigger] out@[k]).tx_n != x.tx_n by {
                let tail = orig.subrange(m as int, n as int);
                assert(out@.contains(out@[k]));
                assert(out@.to_multiset().count(out@[k]) > 0);
                assert(tail.contains(out@[k]));
                let j = choose|j: int| 0 <= j < tail.len() && tail[j] == out@[k];
                assert(orig[m + j] == out@[k]);
                assert(orig[m - 1].tx_n != orig[m + j].tx_n);
            }
            let tail = orig.subrange(m as int, n as int);
            assert(orig.subrange(m - 1, n as int) =~= tail.insert(0, x));
            vstd::seq_lib::to_multiset_insert(tail, 0, x);
        }
        insert_in_order(&mut out, x);
    }
    assert(orig.subrange(0, n as int) =~= orig);
    proof {
        vstd::seq_lib::to_multiset_len(out@);
        vstd::seq_lib::to_multiset_len(orig);
    }
    Ok(out)
}

/// The transport forms of the backup transactions, in the same order.
pub fn serialize_chain(chain: &Vec<BackupTransaction>) -> (r: Vec<SerializedBackupTransaction>)
    ensures
        r@.len() == chain@.len(),
        forall|i: int| 0 <= i < chain@.len() ==> transport_view(#[trigger] r@[i]) == serialized_of(chain@[i]),
{
    let mut out: Vec<SerializedBackupTransaction> = Vec::new();
    let mut i: usize = 0;
    while i < chain.len()
        invariant
            i <= chain@.len(),
            out@.len() == i,
            forall|k: int| 0 <= k < i ==> transport_view(#[trigger] out@[k]) == serialized_of(chain@[k]),
        decreases chain@.len() - i,
    {
        out.push(chain[i].serialize());
        i = i + 1;
    }
    out
}

} // verus!
