use vstd::prelude::*;

verus! {

/// The lower-case digit for a value below sixteen.
pub open spec fn digit_char(n: u8) -> char {
    seq!['0', '1', '2', '3', '4', '5', '6', '7', '8', '9', 'a', 'b', 'c', 'd', 'e', 'f'][n as int]
}

/// The value of a hexadecimal digit of either case.
pub open spec fn digit_value(c: char) -> Option<u8> {
    let v = c as u32;
    if 48 <= v <= 57 {
        Some((v - 48) as u8)
    } else if 97 <= v <= 102 {
        Some((v - 87) as u8)
    } else if 65 <= v <= 70 {
        Some((v - 55) as u8)
    } else {
        None
    }
}

/// Two lower-case digits per byte, high nibble first.
pub open spec fn hex_of(b: Seq<u8>) -> Seq<char>
    decreases b.len(),
{
    if b.len() == 0 {
        seq![]
    } else {
        seq![digit_char(b[0] / 16), digit_char(b[0] % 16)] + hex_of(b.drop_first())
    }
}

/// The bytes that a hexadecimal text of either case stands for, if it is one.
pub open spec fn unhex(s: Seq<char>) -> Option<Seq<u8>>
    decreases s.len(),
{
    if s.len() == 0 {
        Some(seq![])
    } else if s.len() == 1 {
        None
    } else {
        match (digit_value(s[0]), digit_value(s[1]), unhex(s.subrange(2, s.len() as int))) {
            (Some(h), Some(l), Some(rest)) => Some(seq![(h * 16 + l) as u8] + rest),
            _ => None,
        }
    }
}

proof fn lemma_digit_round_trip(n: u8)
    requires
        n < 16,
    ensures
        digit_value(digit_char(n)) == Some(n),
{
    let d = seq!['0', '1', '2', '3', '4', '5', '6', '7', '8', '9', 'a', 'b', 'c', 'd', 'e', 'f'];
    assert(digit_char(n) == d[n as int]);
}

/// Decoding the hexadecimal form of any bytes gives those bytes back.
pub proof fn lemma_unhex_hex(b: Seq<u8>)
    ensures
        unhex(hex_of(b)) == Some(b),
    decreases b.len(),
{
    if b.len() > 0 {
        let h = b[0] / 16;
        let l = b[0] % 16;
        lemma_digit_round_trip(h);
        lemma_digit_round_trip(l);
        lemma_unhex_hex(b.drop_first());
        let s = hex_of(b);
        assert(s.subrange(2, s.len() as int) =~= hex_of(b.drop_first()));
        assert((h * 16 + l) as u8 == b[0]);
        assert(seq![b[0]] + b.drop_first() =~= b);
    }
}

#[verifier::external_type_specification]
#[verifier::external_body]
pub struct ExFromHexError(hex::FromHexError);

/// Relies on hex::encode: two lower-case digits for each byte, high nibble first.
#[verifier::external_body]
pub(crate) fn hex_encode(b: &[u8]) -> (r: String)
    ensures
        r@ == hex_of(b@),
{
    hex::encode(b)
}

/// Relies on hex::decode: accepts an even number of digits of either case,
/// each pair one byte, and refuses anything else.
#[verifier::external_body]
pub(crate) fn hex_decode(s: &str) -> (r: Result<Vec<u8>, hex::FromHexError>)
    ensures
        r is Ok <==> unhex(s@) is Some,
        r matches Ok(v) ==> unhex(s@) == Some(v@),
{
    hex::decode(s)
}

/// Hexadecimal text of the bytes.
pub fn to_hex(b: &[u8]) -> (r: String)
    ensures
        r@ == hex_of(b@),
{
    hex_encode(b)
}

/// The bytes of a hexadecimal text, or `None` when it is not one.
pub fn from_hex(s: &str) -> (r: Option<Vec<u8>>)
    ensures
        match r {
            Some(v) => unhex(s@) == Some(v@),
            None => unhex(s@) is None,
        },
{
    match hex_decode(s) {
        Ok(v) => Some(v),
        Err(_) => None,
    }
}

} // verus!
