//! Numbers as words, as bytes and as text.
use vstd::prelude::*;
use crate::ids::{IdCounter, WorkerIdCounter};
use crate::text;
use crate::words;

verus! {

/// The number that four bytes stand for, the least significant first.
pub open spec fn word_of(bytes: Seq<u8>, at: int) -> int {
    bytes[at] + 0x100 * bytes[at + 1] + 0x1_0000 * bytes[at + 2] + 0x100_0000 * bytes[at + 3]
}

/// The number that eight bytes stand for, the least significant first.
pub open spec fn long_of(bytes: Seq<u8>, at: int) -> int {
    word_of(bytes, at) + 0x1_0000_0000 * word_of(bytes, at + 4)
}

/// Whether two numbers have the same low 32 bits.
pub open spec fn same_word(x: int, y: int) -> bool {
    (x - y) % 0x1_0000_0000 == 0
}

pub proof fn lemma_bytes_of_a_word(x: u32)
    ensures
        words::le_bytes_u32(x).len() == 4,
        word_of(words::le_bytes_u32(x), 0) == x,
{
    let a = (x % 0x100) as int;
    let b = (x / 0x100 % 0x100) as int;
    let c = (x / 0x1_0000 % 0x100) as int;
    let d = (x / 0x100_0000 % 0x100) as int;
    assert(a + 0x100 * b + 0x1_0000 * c + 0x100_0000 * d == x);
    let s = words::le_bytes_u32(x);
    assert(s[0] == a && s[1] == b && s[2] == c && s[3] == d);
}

pub proof fn lemma_bytes_of_a_long(x: u64)
    ensures
        words::le_bytes_u64(x).len() == 8,
        long_of(words::le_bytes_u64(x), 0) == x,
{
    let low = (x % 0x1_0000_0000) as u32;
    let high = (x / 0x1_0000_0000) as u32;
    lemma_bytes_of_a_word(low);
    lemma_bytes_of_a_word(high);
    let s = words::le_bytes_u64(x);
    let t = words::le_bytes_u32(high);
    assert(s[4] == t[0] && s[5] == t[1] && s[6] == t[2] && s[7] == t[3]);
    assert(low + 0x1_0000_0000 * high == x);
}

/// Bytes written for a number stand for that number, and a word that is read
/// from bytes has the bits that stand there.
pub proof fn law_bytes_stand_for_numbers(
    word: u32,
    word_bytes: Vec<u8>,
    long: u64,
    long_bytes: Vec<u8>,
    code: i32,
    code_bytes: Vec<u8>,
    bytes: &[u8],
    at: usize,
    read: i32,
)
    requires
        call_ensures(words::u32_to_le, (word,), word_bytes),
        call_ensures(words::u64_to_le, (long,), long_bytes),
        call_ensures(words::i32_to_le, (code,), code_bytes),
        at + 4 <= bytes@.len(),
        call_ensures(words::read_i32_le, (bytes, at), read),
    ensures
        word_bytes@.len() == 4 && word_of(word_bytes@, 0) == word,
        long_bytes@.len() == 8 && long_of(long_bytes@, 0) == long,
        code_bytes@.len() == 4 && same_word(word_of(code_bytes@, 0), code as int),
        same_word(word_of(bytes@, at as int), read as int),
{
    lemma_bytes_of_a_word(word);
    lemma_bytes_of_a_long(long);
    lemma_bytes_of_a_word(words::unsigned_word(code));
    let s = bytes@.subrange(at as int, at + 4);
    assert(s[0] == bytes@[at as int] && s[1] == bytes@[at + 1] && s[2] == bytes@[at + 2] && s[3]
        == bytes@[at + 3]);
}

/// Reinterpreting a word keeps its bits, and widening it keeps its value.
pub proof fn law_words_keep_their_bits(
    x: i32,
    unsigned: u32,
    widened: u64,
    y: u32,
    signed: i32,
    z: u64,
    low: i32,
)
    requires
        call_ensures(words::to_unsigned_word, (x,), unsigned),
        call_ensures(words::to_sign_extended, (x,), widened),
        call_ensures(words::to_signed_word, (y,), signed),
        call_ensures(words::to_low_word, (z,), low),
    ensures
        same_word(unsigned as int, x as int),
        (widened - x) % 0x1_0000_0000_0000_0000 == 0,
        same_word(signed as int, y as int),
        same_word(low as int, z as int),
        z < 0x8000_0000 ==> low == z,
{
}

/// A counter hands out the number it starts with, then the next one, and so on.
/// After the largest comes zero.
pub proof fn law_counters_count(
    first: u64,
    counter: IdCounter,
    taking: &mut IdCounter,
    id: u64,
    first_worker: u32,
    worker_counter: WorkerIdCounter,
    taking_worker: &mut WorkerIdCounter,
    worker_id: u32,
)
    requires
        call_ensures(IdCounter::starting_at, (first,), counter),
        *taking == counter,
        call_ensures(IdCounter::allocate, (taking,), id),
        call_ensures(WorkerIdCounter::starting_at, (first_worker,), worker_counter),
        *taking_worker == worker_counter,
        call_ensures(WorkerIdCounter::allocate, (taking_worker,), worker_id),
    ensures
        id == first,
        final(taking).next == (if first == u64::MAX {
            0
        } else {
            first + 1
        }),
        worker_id == first_worker,
        final(taking_worker).next == (if first_worker == u32::MAX {
            0
        } else {
            first_worker + 1
        }),
{
}

/// The number that decimal digits stand for.
pub open spec fn number_of(digits: Seq<char>) -> int
    decreases digits.len(),
{
    if digits.len() == 0 {
        0
    } else {
        10 * number_of(digits.drop_last()) + (digits.last() as int - '0' as int)
    }
}

pub proof fn lemma_decimal(n: nat)
    ensures
        number_of(text::decimal(n)) == n,
        text::decimal(n).len() > 0,
        n >= 10 ==> text::decimal(n).len() > 1,
        forall|i: int|
            0 <= i < text::decimal(n).len() ==> '0' <= #[trigger] text::decimal(n)[i] <= '9',
        text::decimal(n).len() > 1 ==> text::decimal(n)[0] != '0',
    decreases n,
{
    let digits = text::decimal(n);
    if n < 10 {
        assert(digits.drop_last() =~= Seq::empty());
        assert(number_of(digits.drop_last()) == 0);
    } else {
        lemma_decimal(n / 10);
        assert(digits.drop_last() =~= text::decimal(n / 10));
        assert(digits[0] == text::decimal(n / 10)[0]);
        if n / 10 < 10 {
            assert(text::decimal(n / 10)[0] == text::digit(n / 10));
        }
    }
}

/// Decimal text consists of digits that stand for the number, without leading
/// zeros.
pub proof fn law_decimal_text_stands_for_its_number(n: u64, written: String)
    requires
        call_ensures(text::to_decimal, (n,), written),
    ensures
        number_of(written@) == n,
        written@.len() > 0,
        forall|i: int| 0 <= i < written@.len() ==> '0' <= #[trigger] written@[i] <= '9',
        written@.len() > 1 ==> written@[0] != '0',
{
    lemma_decimal(n as nat);
}

/// Joined text is the one text followed by the other, and texts are the same
/// exactly if all their characters are.
pub proof fn law_texts_are_joined_and_told_apart(a: &str, b: &str, joined: String, same: bool)
    requires
        call_ensures(text::joined, (a, b), joined),
        call_ensures(text::same_text, (a, b), same),
    ensures
        joined@.len() == a@.len() + b@.len(),
        forall|i: int| 0 <= i < a@.len() ==> #[trigger] joined@[i] == a@[i],
        forall|i: int| 0 <= i < b@.len() ==> joined@[a@.len() + i] == #[trigger] b@[i],
        same <==> a@.len() == b@.len() && forall|i: int|
            0 <= i < a@.len() ==> #[trigger] a@[i] == b@[i],
{
    if a@.len() == b@.len() && forall|i: int| 0 <= i < a@.len() ==> #[trigger] a@[i] == b@[i] {
        assert(a@ =~= b@);
    }
}

} // verus!
