//! The records that a proof backend reads a constraint matrix from: one
//! record of 40 bytes for each coefficient other than zero.
//!
//! | offset | size | content                                            |
//! |--------|------|----------------------------------------------------|
//! | 0      | 4    | the row, least significant byte first              |
//! | 4      | 4    | the column, least significant byte first           |
//! | 8      | 32   | the coefficient, most significant byte first       |

use vstd::prelude::*;

verus! {

/// A coefficient of a matrix: its row, its column, and the 32 bytes of its
/// value.
pub type Record = (i32, i32, [u8; 32]);

/// The number between 0 and `2^32` that has the same bits as `x`.
pub open spec fn unsigned(x: i32) -> int {
    if x >= 0 {
        x as int
    } else {
        x + 0x1_0000_0000
    }
}

/// The number that has the bits of `u`, read as a signed number of 32 bits.
pub open spec fn signed(u: int) -> i32 {
    if u < 0x8000_0000 {
        u as i32
    } else {
        (u - 0x1_0000_0000) as i32
    }
}

/// What is left of `x` in a signed number of 32 bits: its lowest 32 bits.
pub open spec fn wrapped(x: usize) -> i32 {
    signed(x as int % 0x1_0000_0000)
}

/// The four bytes of `x`, least significant first.
pub open spec fn le_bytes(x: i32) -> Seq<u8> {
    let u = unsigned(x);
    seq![
        (u % 256) as u8,
        ((u / 256) % 256) as u8,
        ((u / 65536) % 256) as u8,
        ((u / 16777216) % 256) as u8,
    ]
}

/// The number whose four bytes, least significant first, are `b`.
pub open spec fn from_le_bytes(b: Seq<u8>) -> i32 {
    signed(b[0] + 256 * b[1] + 65536 * b[2] + 16777216 * b[3])
}

/// The 40 bytes of a record.
pub open spec fn encoded(row: i32, column: i32, value: Seq<u8>) -> Seq<u8> {
    le_bytes(row) + le_bytes(column) + value
}

/// The record that 40 bytes hold.
pub open spec fn decoded(bytes: Seq<u8>) -> (i32, i32, Seq<u8>) {
    (
        from_le_bytes(bytes.subrange(0, 4)),
        from_le_bytes(bytes.subrange(4, 8)),
        bytes.subrange(8, 40),
    )
}

pub proof fn lemma_le_bytes_round_trip(x: i32)
    ensures
        le_bytes(x).len() == 4,
        from_le_bytes(le_bytes(x)) == x,
{
}

/// Reading back the bytes of a record gives the record.
pub proof fn lemma_record_round_trip(row: i32, column: i32, value: Seq<u8>)
    requires
        value.len() == 32,
    ensures
        encoded(row, column, value).len() == 40,
        decoded(encoded(row, column, value)) == (row, column, value),
{
    let bytes = encoded(row, column, value);
    lemma_le_bytes_round_trip(row);
    lemma_le_bytes_round_trip(column);
    assert(bytes.subrange(0, 4) =~= le_bytes(row));
    assert(bytes.subrange(4, 8) =~= le_bytes(column));
    assert(bytes.subrange(8, 40) =~= value);
}

/// The lowest 32 bits of `x` as a signed number, as a conversion to `i32`
/// keeps them.
pub fn wrap(x: usize) -> (r: i32)
    ensures
        r == wrapped(x),
{
    let m: u64 = (x as u64) % 0x1_0000_0000;
    if m < 0x8000_0000 {
        m as i32
    } else {
        (m as i64 - 0x1_0000_0000) as i32
    }
}

/// Writes the four bytes of `x` behind `out`, least significant first.
pub fn push_le_bytes(out: &mut Vec<u8>, x: i32)
    ensures
        final(out)@ == old(out)@ + le_bytes(x),
{
    let u: i64 = if x >= 0 {
        x as i64
    } else {
        x as i64 + 0x1_0000_0000
    };
    out.push((u % 256) as u8);
    out.push(((u / 256) % 256) as u8);
    out.push(((u / 65536) % 256) as u8);
    out.push(((u / 16777216) % 256) as u8);
    assert(out@ =~= old(out)@ + le_bytes(x));
}

/// Writes the 40 bytes of a record behind `out`.
pub fn push_record(out: &mut Vec<u8>, record: &Record)
    ensures
        final(out)@ == old(out)@ + encoded(record.0, record.1, record.2@),
{
    push_le_bytes(out, record.0);
    push_le_bytes(out, record.1);
    let ghost start = out@;
    let mut x: usize = 0;
    while x < 32
        invariant
            x <= 32,
            out@ == start + record.2@.subrange(0, x as int),
        decreases 32 - x,
    {
        out.push(record.2[x]);
        assert(out@ =~= start + record.2@.subrange(0, x + 1));
        x = x + 1;
    }
    assert(record.2@.subrange(0, 32) =~= record.2@);
    assert(out@ =~= old(out)@ + encoded(record.0, record.1, record.2@));
}

/// The bytes of the first `n` records, one record after the other.
pub open spec fn encoded_records(records: Seq<Record>, n: nat) -> Seq<u8>
    decreases n,
{
    if n == 0 {
        Seq::empty()
    } else {
        encoded_records(records, (n - 1) as nat) + encoded(
            records[n - 1].0,
            records[n - 1].1,
            records[n - 1].2@,
        )
    }
}

/// The bytes of all the records, one record after the other.
pub fn encode_records(records: &Vec<Record>) -> (out: Vec<u8>)
    ensures
        out@ == encoded_records(records@, records@.len()),
{
    let mut out: Vec<u8> = Vec::new();
    let mut id: usize = 0;
    while id < records.len()
        invariant
            id <= records@.len(),
            out@ == encoded_records(records@, id as nat),
        decreases records.len() - id,
    {
        push_record(&mut out, &records[id]);
        id = id + 1;
    }
    out
}

/// Reads a number from the four bytes at `at`, least significant first.
pub fn read_le_bytes(bytes: &[u8], at: usize) -> (r: i32)
    requires
        at + 4 <= bytes@.len(),
    ensures
        r == from_le_bytes(bytes@.subrange(at as int, at + 4)),
{
    let n = bytes.len();
    let u: i64 = bytes[at] as i64 + 256 * (bytes[at + 1] as i64) + 65536 * (bytes[at + 2] as i64)
        + 16777216 * (bytes[at + 3] as i64);
    if u < 0x8000_0000 {
        u as i32
    } else {
        (u - 0x1_0000_0000) as i32
    }
}

/// Reads the record that starts at the byte `at`.
pub fn read_record(bytes: &[u8], at: usize) -> (r: Record)
    requires
        at + 40 <= bytes@.len(),
    ensures
        (r.0, r.1, r.2@) == decoded(bytes@.subrange(at as int, at + 40)),
{
    let ghost record = bytes@.subrange(at as int, at + 40);
    let n = bytes.len();
    let row = read_le_bytes(bytes, at);
    let column = read_le_bytes(bytes, at + 4);
    let mut value = [0u8;32];
    let mut x: usize = 0;
    while x < 32
        invariant
            x <= 32,
            at + 40 <= n,
            n == bytes@.len(),
            forall|i: int| 0 <= i < x ==> value@[i] == bytes@[at + 8 + i],
        decreases 32 - x,
    {
        value[x] = bytes[at + 8 + x];
        x = x + 1;
    }
    proof {
        assert(record.subrange(0, 4) =~= bytes@.subrange(at as int, at + 4));
        assert(record.subrange(4, 8) =~= bytes@.subrange(at + 4, at + 8));
        assert(value@ =~= record.subrange(8, 40));
    }
    (row, column, value)
}

} // verus!
