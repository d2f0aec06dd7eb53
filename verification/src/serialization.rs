//! Curve points on the wire and as text.
//!
//! On the wire a coordinate is 32 bytes; as text it is the hexadecimal
//! digits of these bytes behind the prefix `0x`. A point of the first group
//! has two coordinates, a point of the second group four.

use vstd::prelude::*;
use vstd::slice::slice_subrange;

verus! {

/// A point of the first group: its two coordinates as text.
#[derive(Debug, PartialEq)]
pub struct G1Affine(pub String, pub String);

/// A point of the second group over the quadratic extension field: its two
/// coordinates, each a pair, as text.
#[derive(Debug, PartialEq)]
pub struct G2AffineFq2(pub (String, String), pub (String, String));

/// A point of the second group over the base field.
#[derive(Debug, PartialEq)]
pub struct G2AffineFq(pub String, pub String);

#[derive(Debug, PartialEq)]
pub enum G2Affine {
    Fq2(G2AffineFq2),
    Fq(G2AffineFq),
}

/// The hexadecimal digit of a number below 16, in lower case.
pub open spec fn hex_digit(n: u8) -> char {
    if n < 10 {
        (48 + n) as char
    } else {
        (87 + n) as char
    }
}

/// The number that a hexadecimal digit of either case stands for.
pub open spec fn hex_value(c: char) -> Option<u8> {
    let n = c as u32;
    if 48 <= n <= 57 {
        Some((n - 48) as u8)
    } else if 97 <= n <= 102 {
        Some((n - 87) as u8)
    } else if 65 <= n <= 70 {
        Some((n - 55) as u8)
    } else {
        None
    }
}

/// The hexadecimal digits of `bytes`, two for each byte, in lower case.
pub open spec fn hex_of(bytes: Seq<u8>) -> Seq<char> {
    Seq::new(
        2 * bytes.len(),
        |i: int|
            if i % 2 == 0 {
                hex_digit(bytes[i / 2] / 16)
            } else {
                hex_digit(bytes[i / 2] % 16)
            },
    )
}

/// Whether `s` is an even number of hexadecimal digits.
pub open spec fn is_hex(s: Seq<char>) -> bool {
    s.len() % 2 == 0 && forall|i: int| 0 <= i < s.len() ==> hex_value(#[trigger] s[i]) is Some
}

/// The bytes that the hexadecimal digits `s` stand for.
pub open spec fn bytes_of_hex(s: Seq<char>) -> Seq<u8> {
    Seq::new(
        s.len() / 2,
        |i: int| (16 * hex_value(s[2 * i]).unwrap() + hex_value(s[2 * i + 1]).unwrap()) as u8,
    )
}

/// The text of a coordinate: `0x` and the hexadecimal digits of its bytes.
pub open spec fn text_of(bytes: Seq<u8>) -> Seq<char> {
    seq!['0', 'x'] + hex_of(bytes)
}

/// Reading back the hexadecimal digits of bytes gives the bytes.
pub proof fn lemma_hex_round_trip(bytes: Seq<u8>)
    ensures
        is_hex(hex_of(bytes)),
        bytes_of_hex(hex_of(bytes)) == bytes,
{
    let s = hex_of(bytes);
    assert forall|i: int| 0 <= i < s.len() implies hex_value(#[trigger] s[i]) is Some by {
        let b = bytes[i / 2];
        assert(b / 16 < 16 && b % 16 < 16);
    }
    assert forall|i: int| 0 <= i < bytes.len() implies bytes_of_hex(s)[i] == bytes[i] by {
        let b = bytes[i];
        assert(s[2 * i] == hex_digit(b / 16));
        assert(s[2 * i + 1] == hex_digit(b % 16));
        assert(hex_value(hex_digit(b / 16)) == Some((b / 16) as u8));
        assert(hex_value(hex_digit(b % 16)) == Some((b % 16) as u8));
    }
    assert(bytes_of_hex(s) =~= bytes);
}

#[verifier::external_type_specification]
#[verifier::external_body]
pub struct ExFromHexError(hex::FromHexError);

/// `hex::encode`: two lower-case hexadecimal digits for each byte, in order.
#[verifier::external_body]
fn encode_digits(data: &[u8]) -> (s: String)
    ensures
        s@ == hex_of(data@),
{
    hex::encode(data)
}

/// `hex::decode`: the bytes that an even number of hexadecimal digits of
/// either case stand for, and an error for any other text.
#[verifier::external_body]
fn decode_digits(value: &str) -> (r: Result<Vec<u8>, hex::FromHexError>)
    ensures
        r is Ok <==> is_hex(value@),
        r matches Ok(bytes) ==> bytes@ == bytes_of_hex(value@),
{
    hex::decode(value)
}

/// `str::strip_prefix`: what follows the prefix, if the text starts with it.
#[verifier::external_body]
fn strip_prefix<'a>(value: &'a str, prefix: &str) -> (r: Option<&'a str>)
    ensures
        r matches Some(rest) ==> value@ == prefix@ + rest@,
        r is None ==> !prefix@.is_prefix_of(value@),
{
    value.strip_prefix(prefix)
}

/// Whether `s` is the text of a coordinate.
pub open spec fn is_text(s: Seq<char>) -> bool {
    s.len() >= 2 && s[0] == '0' && s[1] == 'x' && is_hex(s.subrange(2, s.len() as int))
}

/// The bytes that the text of a coordinate stands for.
pub open spec fn bytes_of_text(s: Seq<char>) -> Seq<u8> {
    bytes_of_hex(s.subrange(2, s.len() as int))
}

/// The text of a coordinate with the bytes `data`.
pub fn encode_hex(data: &[u8]) -> (s: String)
    ensures
        s@ == text_of(data@),
{
    proof {
        reveal_strlit("0x");
        assert("0x"@ =~= seq!['0', 'x']);
    }
    let digits = encode_digits(data);
    String::from_str("0x").concat(digits.as_str())
}

/// The bytes of a coordinate given as text, if it is one.
pub fn decode_hex(value: &str) -> (r: Option<Vec<u8>>)
    ensures
        r is Some <==> is_text(value@),
        r matches Some(bytes) ==> bytes@ == bytes_of_text(value@),
{
    proof {
        reveal_strlit("0x");
        assert("0x"@ =~= seq!['0', 'x']);
    }
    match strip_prefix(value, "0x") {
        Some(rest) => {
            assert(value@.subrange(2, value@.len() as int) =~= rest@);
            match decode_digits(rest) {
                Ok(bytes) => Some(bytes),
                Err(_) => None,
            }
        },
        None => None,
    }
}

/// Reads a point of the first group from its 64 bytes.
pub fn read_g1(buffer: &[u8]) -> (r: G1Affine)
    requires
        buffer@.len() == 64,
    ensures
        r.0@ == text_of(buffer@.subrange(0, 32)),
        r.1@ == text_of(buffer@.subrange(32, 64)),
{
    G1Affine(
        encode_hex(slice_subrange(buffer, 0, 32)),
        encode_hex(slice_subrange(buffer, 32, 64)),
    )
}

/// Reads a point of the second group from its 128 bytes.
pub fn read_g2(buffer: &[u8]) -> (r: G2Affine)
    requires
        buffer@.len() == 128,
    ensures
        r matches G2Affine::Fq2(p) && (p.0).0@ == text_of(buffer@.subrange(0, 32)) && (p.0).1@
            == text_of(buffer@.subrange(32, 64)) && (p.1).0@ == text_of(
            buffer@.subrange(64, 96),
        ) && (p.1).1@ == text_of(buffer@.subrange(96, 128)),
{
    G2Affine::Fq2(
        G2AffineFq2(
            (
                encode_hex(slice_subrange(buffer, 0, 32)),
                encode_hex(slice_subrange(buffer, 32, 64)),
            ),
            (
                encode_hex(slice_subrange(buffer, 64, 96)),
                encode_hex(slice_subrange(buffer, 96, 128)),
            ),
        ),
    )
}

/// Writes the bytes of `from` behind `out`.
fn append(out: &mut Vec<u8>, from: &Vec<u8>)
    ensures
        final(out)@ == old(out)@ + from@,
{
    let mut i: usize = 0;
    while i < from.len()
        invariant
            i <= from@.len(),
            out@ == old(out)@ + from@.subrange(0, i as int),
        decreases from.len() - i,
    {
        out.push(from[i]);
        assert(out@ =~= old(out)@ + from@.subrange(0, i + 1));
        i = i + 1;
    }
    assert(from@.subrange(0, from@.len() as int) =~= from@);
}

/// The bytes of a point of the first group on the wire, if both its
/// coordinates are texts of coordinates.
pub fn write_g1(g1: &G1Affine) -> (r: Option<Vec<u8>>)
    ensures
        r is Some <==> is_text(g1.0@) && is_text(g1.1@),
        r matches Some(bytes) ==> bytes@ == bytes_of_text(g1.0@) + bytes_of_text(g1.1@),
{
    let x = decode_hex(g1.0.as_str());
    let y = decode_hex(g1.1.as_str());
    match (x, y) {
        (Some(x), Some(y)) => {
            let mut out: Vec<u8> = Vec::new();
            append(&mut out, &x);
            append(&mut out, &y);
            Some(out)
        },
        _ => None,
    }
}

/// The bytes of a point of the second group on the wire, for a point over
/// the quadratic extension field whose coordinates are texts of coordinates.
pub fn write_g2(g2: &G2Affine) -> (r: Option<Vec<u8>>)
    ensures
        r is Some <==> (g2 matches G2Affine::Fq2(p) && is_text((p.0).0@) && is_text((p.0).1@)
            && is_text((p.1).0@) && is_text((p.1).1@)),
        r matches Some(bytes) ==> (g2 matches G2Affine::Fq2(p) && bytes@ == bytes_of_text(
            (p.0).0@,
        ) + bytes_of_text((p.0).1@) + bytes_of_text((p.1).0@) + bytes_of_text((p.1).1@)),
{
    match g2 {
        G2Affine::Fq2(p) => {
            let a = decode_hex((p.0).0.as_str());
            let b = decode_hex((p.0).1.as_str());
            let c = decode_hex((p.1).0.as_str());
            let d = decode_hex((p.1).1.as_str());
            match (a, b, c, d) {
                (Some(a), Some(b), Some(c), Some(d)) => {
                    let mut out: Vec<u8> = Vec::new();
                    append(&mut out, &a);
                    append(&mut out, &b);
                    append(&mut out, &c);
                    append(&mut out, &d);
                    Some(out)
                },
                _ => None,
            }
        },
        _ => None,
    }
}

} // verus!
