//! Two's complement words and little-endian bytes.
//!
//! Every number that crosses between two workers does so as a 32-bit word of a
//! shared `Int32Array` or as little-endian bytes. This module says what those
//! conversions are over mathematical integers.
use vstd::prelude::*;

verus! {

/// The bit pattern of a signed word, as an unsigned word.
pub open spec fn unsigned_word(x: i32) -> u32 {
    if x >= 0 {
        x as u32
    } else {
        (x + 0x1_0000_0000) as u32
    }
}

/// The signed word with the bit pattern `x`.
pub open spec fn signed_word(x: u32) -> i32 {
    if x < 0x8000_0000 {
        x as i32
    } else {
        (x - 0x1_0000_0000) as i32
    }
}

/// The low 32 bits of a non-negative number, as a signed word.
pub open spec fn low_word(x: int) -> i32 {
    signed_word((x % 0x1_0000_0000) as u32)
}

/// A signed word widened to 64 bits with its sign, read as an unsigned number.
pub open spec fn sign_extended(x: i32) -> u64 {
    if x >= 0 {
        x as u64
    } else {
        (x + 0x1_0000_0000_0000_0000) as u64
    }
}

/// The four little-endian bytes of a word.
pub open spec fn le_bytes_u32(x: u32) -> Seq<u8> {
    seq![
        (x % 0x100) as u8,
        (x / 0x100 % 0x100) as u8,
        (x / 0x1_0000 % 0x100) as u8,
        (x / 0x100_0000 % 0x100) as u8,
    ]
}

/// The eight little-endian bytes of a 64-bit number.
pub open spec fn le_bytes_u64(x: u64) -> Seq<u8> {
    le_bytes_u32((x % 0x1_0000_0000) as u32) + le_bytes_u32((x / 0x1_0000_0000) as u32)
}

/// The four little-endian bytes of a signed word.
pub open spec fn le_bytes_i32(x: i32) -> Seq<u8> {
    le_bytes_u32(unsigned_word(x))
}

/// The word whose little-endian bytes start `s`.
pub open spec fn u32_from_le(s: Seq<u8>) -> u32 {
    (s[0] + 0x100 * s[1] + 0x1_0000 * s[2] + 0x100_0000 * s[3]) as u32
}

/// The signed word whose little-endian bytes start `s`.
pub open spec fn i32_from_le(s: Seq<u8>) -> i32 {
    signed_word(u32_from_le(s))
}

/// A signed word survives being written as an unsigned word and read back.
pub proof fn lemma_word_round_trip(x: i32, y: u32)
    ensures
        signed_word(unsigned_word(x)) == x,
        unsigned_word(signed_word(y)) == y,
{
}

/// Writing a signed word as little-endian bytes and reading them back gives
/// the same word.
pub proof fn lemma_le_i32_round_trip(x: i32)
    ensures
        le_bytes_i32(x).len() == 4,
        i32_from_le(le_bytes_i32(x)) == x,
{
    let w = unsigned_word(x);
    let s = le_bytes_u32(w);
    let a = (w % 0x100) as int;
    let b = (w / 0x100 % 0x100) as int;
    let c = (w / 0x1_0000 % 0x100) as int;
    let d = (w / 0x100_0000 % 0x100) as int;
    assert(s[0] == a && s[1] == b && s[2] == c && s[3] == d);
    assert(a + 0x100 * b + 0x1_0000 * c + 0x100_0000 * d == w);
}

/// Reinterprets a signed word as an unsigned one.
pub fn to_unsigned_word(x: i32) -> (r: u32)
    ensures
        r == unsigned_word(x),
{
    if x >= 0 {
        x as u32
    } else {
        (x as i64 + 0x1_0000_0000i64) as u32
    }
}

/// Reinterprets an unsigned word as a signed one.
pub fn to_signed_word(x: u32) -> (r: i32)
    ensures
        r == signed_word(x),
{
    if x < 0x8000_0000 {
        x as i32
    } else {
        (x as i64 - 0x1_0000_0000i64) as i32
    }
}

/// The low 32 bits of `x`, as a signed word.
pub fn to_low_word(x: u64) -> (r: i32)
    ensures
        r == low_word(x as int),
{
    to_signed_word((x % 0x1_0000_0000) as u32)
}

/// Widens a signed word to 64 bits with its sign.
pub fn to_sign_extended(x: i32) -> (r: u64)
    ensures
        r == sign_extended(x),
{
    if x >= 0 {
        x as u64
    } else {
        (x as i128 + 0x1_0000_0000_0000_0000i128) as u64
    }
}

/// The little-endian bytes of a word.
pub fn u32_to_le(x: u32) -> (r: Vec<u8>)
    ensures
        r@ == le_bytes_u32(x),
{
    let mut bytes: Vec<u8> = Vec::new();
    bytes.push((x % 0x100) as u8);
    bytes.push((x / 0x100 % 0x100) as u8);
    bytes.push((x / 0x1_0000 % 0x100) as u8);
    bytes.push((x / 0x100_0000 % 0x100) as u8);
    assert(bytes@ =~= le_bytes_u32(x));
    bytes
}

/// The little-endian bytes of a 64-bit number.
pub fn u64_to_le(x: u64) -> (r: Vec<u8>)
    ensures
        r@ == le_bytes_u64(x),
{
    let mut bytes = u32_to_le((x % 0x1_0000_0000) as u32);
    let mut high = u32_to_le((x / 0x1_0000_0000) as u32);
    bytes.append(&mut high);
    bytes
}

/// The little-endian bytes of a signed word.
pub fn i32_to_le(x: i32) -> (r: Vec<u8>)
    ensures
        r@ == le_bytes_i32(x),
{
    u32_to_le(to_unsigned_word(x))
}

/// Reads the signed word whose little-endian bytes stand at `at`.
pub fn read_i32_le(bytes: &[u8], at: usize) -> (r: i32)
    requires
        at + 4 <= bytes@.len(),
    ensures
        r == i32_from_le(bytes@.subrange(at as int, at + 4)),
{
    let ghost s = bytes@.subrange(at as int, at + 4);
    assert(s[0] == bytes@[at as int] && s[1] == bytes@[at + 1] && s[2] == bytes@[at + 2] && s[3]
        == bytes@[at + 3]);
    let word: u32 = bytes[at] as u32 + 0x100 * bytes[at + 1] as u32 + 0x1_0000 * bytes[at + 2] as u32
        + 0x100_0000 * bytes[at + 3] as u32;
    to_signed_word(word)
}

} // verus!
