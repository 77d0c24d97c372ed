use vstd::prelude::*;
use crate::error::TransferError;
use crate::hex_codec::{from_hex, unhex};
use crate::keys::{be_value, curve_order, is_valid_seckey, scalar_in_range, seckey_add_tweak, seckey_is_valid};

verus! {

/// The sum of two scalars modulo the curve order.
pub open spec fn scalar_sum(a: Seq<u8>, b: Seq<u8>) -> nat {
    (be_value(a) + be_value(b)) % curve_order()
}

/// What `compute_t1` returns for a client secret key and a blinding token.
pub open spec fn t1_result(client_seckey: Seq<u8>, x1: Seq<u8>) -> Result<nat, TransferError> {
    if !is_valid_seckey(client_seckey) {
        Err(TransferError::KeyFormat)
    } else if x1.len() != 32 || be_value(x1) >= curve_order() {
        Err(TransferError::InvalidScalar)
    } else if scalar_sum(client_seckey, x1) == 0 {
        Err(TransferError::InvalidScalar)
    } else {
        Ok(scalar_sum(client_seckey, x1))
    }
}

/// Copies thirty-two bytes into an array.
fn to_array32(b: &[u8]) -> (r: [u8; 32])
    requires
        b@.len() == 32,
    ensures
        r@ == b@,
{
    let mut a: [u8; 32] = [0u8; 32];
    let mut i: usize = 0;
    while i < 32
        invariant
            i <= 32,
            b@.len() == 32,
            a@.len() == 32,
            forall|j: int| 0 <= j < i ==> a@[j] == b@[j],
        decreases 32 - i,
    {
        a[i] = b[i];
        i = i + 1;
    }
    assert(a@ =~= b@);
    a
}

/// The tweaked key `t1 = client_seckey + x1` modulo the curve order, as 32
/// big-endian bytes: the share that the new owner receives.
pub fn compute_t1(client_seckey: &[u8; 32], x1: &[u8]) -> (r: Result<[u8; 32], TransferError>)
    ensures
        match r {
            Ok(t) => t1_result(client_seckey@, x1@) == Ok::<nat, TransferError>(be_value(t@)),
            Err(e) => t1_result(client_seckey@, x1@) == Err::<nat, TransferError>(e),
        },
{
    if !seckey_is_valid(client_seckey) {
        return Err(TransferError::KeyFormat);
    }
    if x1.len() != 32 {
        return Err(TransferError::InvalidScalar);
    }
    let x = to_array32(x1);
    if !scalar_in_range(&x) {
        return Err(TransferError::InvalidScalar);
    }
    match seckey_add_tweak(client_seckey, &x) {
        Some(t) => Ok(t),
        None => Err(TransferError::InvalidScalar),
    }
}

/// The 32-byte blinding token `x1` from the hexadecimal text that the entity
/// sends. Fails with `InvalidScalar` where the text is not hexadecimal or does
/// not stand for exactly 32 bytes.
pub fn parse_x1(text: &str) -> (r: Result<Vec<u8>, TransferError>)
    ensures
        match r {
            Ok(v) => unhex(text@) == Some(v@) && v@.len() == 32,
            Err(e) => e == TransferError::InvalidScalar && !(unhex(text@) matches Some(b) && b.len()
                == 32),
        },
{
    match from_hex(text) {
        Some(v) => if v.len() == 32 {
            Ok(v)
        } else {
            Err(TransferError::InvalidScalar)
        },
        None => Err(TransferError::InvalidScalar),
    }
}

/// The tweak keeps the combined key: where the entity turns its share `s` into
/// `s - x1`, the new owner's `t1` and that share add up to what the old owner's
/// key and `s` added up to.
pub proof fn lemma_t1_keeps_combined_key(client_seckey: Seq<u8>, x1: Seq<u8>, t1: Seq<u8>, s: nat)
    requires
        t1_result(client_seckey, x1) == Ok::<nat, TransferError>(be_value(t1)),
        s < curve_order(),
    ensures
        (be_value(t1) + s + curve_order() - be_value(x1)) as int % (curve_order() as int)
            == (be_value(client_seckey) + s) as int % (curve_order() as int),
{
    let n = curve_order() as int;
    let k = be_value(client_seckey) as int;
    let x = be_value(x1) as int;
    let a = k + x;
    let b = s + n - x;
    assert(be_value(t1) as int == a % n);
    vstd::arithmetic::div_mod::lemma_add_mod_noop_right(b, a, n);
    assert(a + b == n + (k + s));
    vstd::arithmetic::div_mod::lemma_mod_add_multiples_vanish(k + s, n);
}

/// Any split of `t1` keeps the combined key: the new owner takes any share
/// `o2`, the entity's share becomes `s1 + (t1 - o2) - x1`, and the two add up
/// to what the old owner's key and `s1` added up to.
pub proof fn lemma_t1_split_keeps_combined_key(
    client_seckey: Seq<u8>,
    x1: Seq<u8>,
    t1: Seq<u8>,
    s1: nat,
    o2: nat,
)
    requires
        t1_result(client_seckey, x1) == Ok::<nat, TransferError>(be_value(t1)),
        s1 < curve_order(),
        o2 < curve_order(),
    ensures
        ({
            let n = curve_order() as int;
            let t2 = (be_value(t1) + n - o2) % n;
            let s2 = (s1 + t2 + n - be_value(x1)) % n;
            (o2 + s2) % n == (be_value(client_seckey) + s1) as int % n
        }),
{
    let n = curve_order() as int;
    let k = be_value(client_seckey) as int;
    let x = be_value(x1) as int;
    let t = be_value(t1) as int;
    let a = t + n - o2;
    let t2 = a % n;
    let b = s1 + t2 + n - x;
    assert(t == (k + x) % n);
    assert(0 <= x < n);
    vstd::arithmetic::div_mod::lemma_add_mod_noop_right(o2 as int, b, n);
    let c = o2 + s1 + n - x;
    assert(o2 + b == c + t2);
    vstd::arithmetic::div_mod::lemma_add_mod_noop_right(c, a, n);
    let d = s1 + 2 * n - x;
    assert(c + a == d + t);
    vstd::arithmetic::div_mod::lemma_add_mod_noop_right(d, k + x, n);
    assert(d + (k + x) == (k + s1) + 2 * n);
    vstd::arithmetic::div_mod::lemma_mod_multiples_vanish(2, k + s1, n);
}

} // verus!
