//! Hashes that identify WebAssembly modules, and their text.
use vstd::prelude::*;

verus! {

/// The hash of a WebAssembly module.
#[derive(Debug, Clone, Copy, PartialEq, Eq)]
pub enum ModuleHash {
    XXHash([u8; 8]),
    Sha256([u8; 32]),
}

/// What a [`ModuleHash`] says.
#[verifier::ext_equal]
pub enum HashView {
    XXHash(Seq<u8>),
    Sha256(Seq<u8>),
}

impl View for ModuleHash {
    type V = HashView;

    open spec fn view(&self) -> HashView {
        match *self {
            ModuleHash::XXHash(bytes) => HashView::XXHash(bytes@),
            ModuleHash::Sha256(bytes) => HashView::Sha256(bytes@),
        }
    }
}

impl HashView {
    /// The hash's bytes.
    pub open spec fn bytes(self) -> Seq<u8> {
        match self {
            HashView::XXHash(bytes) => bytes,
            HashView::Sha256(bytes) => bytes,
        }
    }

    /// Whether the number of bytes is that of the algorithm.
    pub open spec fn well_formed(self) -> bool {
        match self {
            HashView::XXHash(bytes) => bytes.len() == 8,
            HashView::Sha256(bytes) => bytes.len() == 32,
        }
    }
}

/// Why a text is not a hash.
#[derive(Debug, Clone, Copy, PartialEq, Eq)]
pub enum HashError {
    /// A byte is not a hexadecimal digit.
    InvalidHexCharacter { c: char, index: usize },
    /// The text has an odd number of bytes.
    OddLength,
    /// The text does not have two digits for each byte of the hash.
    InvalidStringLength,
}

/// Whether a byte is a hexadecimal digit, in either case.
pub open spec fn is_hex_digit(c: u8) -> bool {
    48 <= c <= 57 || 65 <= c <= 70 || 97 <= c <= 102
}

/// The value of a hexadecimal digit.
pub open spec fn hex_value(c: u8) -> int {
    if c <= 57 {
        c - 48
    } else if c <= 70 {
        c - 55
    } else {
        c - 87
    }
}

/// How many hexadecimal digits start a text.
pub open spec fn leading_hex_digits(text: Seq<u8>) -> nat
    decreases text.len(),
{
    if text.len() > 0 && is_hex_digit(text[0]) {
        1 + leading_hex_digits(text.skip(1))
    } else {
        0
    }
}

/// The `n` bytes that a text of hexadecimal digits stands for, or what is wrong
/// with it.
pub open spec fn hex_decoded(text: Seq<u8>, n: nat) -> Result<Seq<u8>, HashError> {
    if text.len() % 2 != 0 {
        Err(HashError::OddLength)
    } else if text.len() != 2 * n {
        Err(HashError::InvalidStringLength)
    } else if leading_hex_digits(text) < text.len() {
        let index = leading_hex_digits(text);
        Err(
            HashError::InvalidHexCharacter {
                c: text[index as int] as char,
                index: index as usize,
            },
        )
    } else {
        Ok(
            Seq::new(
                n,
                |i: int| (16 * hex_value(text[2 * i]) + hex_value(text[2 * i + 1])) as u8,
            ),
        )
    }
}

/// The upper-case hexadecimal digit of a value below 16.
pub open spec fn upper_hex_digit(value: int) -> char {
    if value < 10 {
        (48 + value) as char
    } else {
        (55 + value) as char
    }
}

/// Bytes as upper-case hexadecimal text, two digits each.
pub open spec fn hex_encoded(bytes: Seq<u8>) -> Seq<char> {
    Seq::new(
        2 * bytes.len(),
        |i: int|
            if i % 2 == 0 {
                upper_hex_digit(bytes[i / 2] as int / 16)
            } else {
                upper_hex_digit(bytes[i / 2] as int % 16)
            },
    )
}

/// The hash that a text stands for: a SHA-256 hash if it can be read as one,
/// and an xxHash otherwise.
pub open spec fn parsed_hash(text: Seq<char>) -> Result<HashView, HashError> {
    let bytes = vstd::utf8::encode_utf8(text);
    match hex_decoded(bytes, 32) {
        Ok(hash) => Ok(HashView::Sha256(hash)),
        Err(_) => match hex_decoded(bytes, 8) {
            Ok(hash) => Ok(HashView::XXHash(hash)),
            Err(e) => Err(e),
        },
    }
}

/// Calls `wasmer_types::ModuleHash::sha256_parse_hex`, which reads exactly 64
/// hexadecimal digits of either case, checks the length before the digits, and
/// names the first byte that is no digit.
#[verifier::external_body]
fn sha256_parse_hex(text: &str) -> (r: Result<ModuleHash, HashError>)
    ensures
        match (hex_decoded(vstd::utf8::encode_utf8(text@), 32), r) {
            (Ok(bytes), Ok(hash)) => hash@ == HashView::Sha256(bytes),
            (Err(e), Err(f)) => e == f,
            _ => false,
        },
{
    match wasmer_types::ModuleHash::sha256_parse_hex(text) {
        Ok(wasmer_types::ModuleHash::XXHash(bytes)) => Ok(ModuleHash::XXHash(bytes)),
        Ok(wasmer_types::ModuleHash::Sha256(bytes)) => Ok(ModuleHash::Sha256(bytes)),
        Err(hex::FromHexError::InvalidHexCharacter { c, index }) => Err(
            HashError::InvalidHexCharacter { c, index },
        ),
        Err(hex::FromHexError::OddLength) => Err(HashError::OddLength),
        Err(hex::FromHexError::InvalidStringLength) => Err(HashError::InvalidStringLength),
    }
}

/// Calls `wasmer_types::ModuleHash::xxhash_parse_hex`, which reads exactly 16
/// hexadecimal digits of either case, checks the length before the digits, and
/// names the first byte that is no digit.
#[verifier::external_body]
fn xxhash_parse_hex(text: &str) -> (r: Result<ModuleHash, HashError>)
    ensures
        match (hex_decoded(vstd::utf8::encode_utf8(text@), 8), r) {
            (Ok(bytes), Ok(hash)) => hash@ == HashView::XXHash(bytes),
            (Err(e), Err(f)) => e == f,
            _ => false,
        },
{
    match wasmer_types::ModuleHash::xxhash_parse_hex(text) {
        Ok(wasmer_types::ModuleHash::XXHash(bytes)) => Ok(ModuleHash::XXHash(bytes)),
        Ok(wasmer_types::ModuleHash::Sha256(bytes)) => Ok(ModuleHash::Sha256(bytes)),
        Err(hex::FromHexError::InvalidHexCharacter { c, index }) => Err(
            HashError::InvalidHexCharacter { c, index },
        ),
        Err(hex::FromHexError::OddLength) => Err(HashError::OddLength),
        Err(hex::FromHexError::InvalidStringLength) => Err(HashError::InvalidStringLength),
    }
}

/// Calls the `Display` of `wasmer_types::ModuleHash`, which writes each byte of
/// the hash as two upper-case hexadecimal digits.
#[verifier::external_body]
fn display_hash(hash: &ModuleHash) -> (r: String)
    ensures
        r@ == hex_encoded(hash@.bytes()),
{
    match *hash {
        ModuleHash::XXHash(bytes) => wasmer_types::ModuleHash::XXHash(bytes).to_string(),
        ModuleHash::Sha256(bytes) => wasmer_types::ModuleHash::Sha256(bytes).to_string(),
    }
}

impl ModuleHash {
    /// The hash as text.
    pub fn to_text(&self) -> (r: String)
        ensures
            r@ == hex_encoded(self@.bytes()),
    {
        display_hash(self)
    }

    /// Reads a hash from its text. Which kind of hash it is, the text does not
    /// say: a text that reads as a SHA-256 hash is one, any other is an xxHash.
    pub fn parse(text: &str) -> (r: Result<ModuleHash, HashError>)
        ensures
            match (parsed_hash(text@), r) {
                (Ok(hash), Ok(h)) => h@ == hash,
                (Err(e), Err(f)) => e == f,
                _ => false,
            },
    {
        match sha256_parse_hex(text) {
            Ok(hash) => Ok(hash),
            Err(_) => xxhash_parse_hex(text),
        }
    }
}

/// The digits of a byte give back its two halves.
proof fn lemma_hex_digit(value: int)
    requires
        0 <= value < 16,
    ensures
        (upper_hex_digit(value) as u32) < 128,
        is_hex_digit(upper_hex_digit(value) as u8),
        hex_value(upper_hex_digit(value) as u8) == value,
{
}

/// A text of digits only is all leading digits.
proof fn lemma_all_hex_digits(text: Seq<u8>)
    requires
        forall|i: int| 0 <= i < text.len() ==> is_hex_digit(#[trigger] text[i]),
    ensures
        leading_hex_digits(text) == text.len(),
    decreases text.len(),
{
    if text.len() > 0 {
        assert forall|i: int| 0 <= i < text.skip(1).len() implies is_hex_digit(
            #[trigger] text.skip(1)[i],
        ) by {
            assert(text.skip(1)[i] == text[i + 1]);
        }
        lemma_all_hex_digits(text.skip(1));
    }
}

/// Bytes written as hexadecimal text read back as the same bytes.
proof fn lemma_hex_round_trip(bytes: Seq<u8>)
    ensures
        vstd::utf8::encode_utf8(hex_encoded(bytes)).len() == 2 * bytes.len(),
        hex_decoded(vstd::utf8::encode_utf8(hex_encoded(bytes)), bytes.len()) == Ok::<
            Seq<u8>,
            HashError,
        >(bytes),
{
    let text = hex_encoded(bytes);
    let encoded = vstd::utf8::encode_utf8(text);
    assert forall|i: int| 0 <= i < text.len() implies (#[trigger] text[i] as u32) < 128
        && is_hex_digit(text[i] as u8) by {
        lemma_hex_digit(bytes[i / 2] as int / 16);
        lemma_hex_digit(bytes[i / 2] as int % 16);
    }
    vstd::utf8::is_ascii_chars_encode_utf8(text);
    assert forall|i: int| 0 <= i < encoded.len() implies is_hex_digit(#[trigger] encoded[i]) by {
        assert(encoded[i] == text[i] as u8);
    }
    lemma_all_hex_digits(encoded);
    let decoded = hex_decoded(encoded, bytes.len())->Ok_0;
    assert forall|i: int| 0 <= i < bytes.len() implies decoded[i] == bytes[i] by {
        assert(encoded[2 * i] == text[2 * i] as u8);
        assert(encoded[2 * i + 1] == text[2 * i + 1] as u8);
        lemma_hex_digit(bytes[i] as int / 16);
        lemma_hex_digit(bytes[i] as int % 16);
        assert((2 * i) / 2 == i && (2 * i + 1) / 2 == i);
    }
    assert(decoded =~= bytes);
}

/// Every hash is read back from its own text, as the same kind of hash.
pub proof fn law_hash_text_round_trip(hash: HashView)
    requires
        hash.well_formed(),
    ensures
        parsed_hash(hex_encoded(hash.bytes())) == Ok::<HashView, HashError>(hash),
{
    lemma_hex_round_trip(hash.bytes());
}

} // verus!
