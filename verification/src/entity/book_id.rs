use mongodb::bson::oid::ObjectId;
use vstd::prelude::*;

verus! {

/// The key under which the store keeps one book: twelve bytes, chosen by the store.
#[derive(Debug, Clone, Copy, PartialEq, Eq)]
pub struct BookId {
    pub bytes: [u8; 12],
}

impl View for BookId {
    type V = Seq<u8>;

    open spec fn view(&self) -> Seq<u8> {
        self.bytes@
    }
}

/// Whether `c` is one of `0`-`9`, `a`-`f` or `A`-`F`.
pub open spec fn is_hex_digit(c: char) -> bool {
    ||| '0' <= c <= '9'
    ||| 'a' <= c <= 'f'
    ||| 'A' <= c <= 'F'
}

/// The number that a hexadecimal digit stands for.
pub open spec fn hex_digit_value(c: char) -> int {
    if '0' <= c <= '9' {
        c as int - '0' as int
    } else if 'a' <= c <= 'f' {
        c as int - 'a' as int + 10
    } else {
        c as int - 'A' as int + 10
    }
}

/// Whether `text` is a key in its written form: twenty-four hexadecimal digits.
pub open spec fn is_key_text(text: Seq<char>) -> bool {
    &&& text.len() == 24
    &&& forall|i: int| 0 <= i < 24 ==> is_hex_digit(#[trigger] text[i])
}

/// The twelve bytes that a key's written form denotes, two digits to a byte,
/// the first digit of each pair being the higher one.
pub open spec fn key_bytes(text: Seq<char>) -> Seq<u8> {
    Seq::new(
        12,
        |i: int| (16 * hex_digit_value(text[2 * i]) + hex_digit_value(text[2 * i + 1])) as u8,
    )
}

/// The sixteen digits in their order, the letters in lower case.
pub open spec fn hex_digits() -> Seq<char> {
    seq!['0', '1', '2', '3', '4', '5', '6', '7', '8', '9', 'a', 'b', 'c', 'd', 'e', 'f']
}

/// The written form of a key in lower case: two digits to a byte, the higher
/// one first.
pub open spec fn key_text(bytes: Seq<u8>) -> Seq<char> {
    Seq::new(
        2 * bytes.len(),
        |i: int|
            hex_digits()[if i % 2 == 0 {
                bytes[i / 2] as int / 16
            } else {
                bytes[i / 2] as int % 16
            }],
    )
}

/// Each of the sixteen digits is a digit, and stands for its place among them.
proof fn lemma_hex_digits(value: int)
    requires
        0 <= value < 16,
    ensures
        is_hex_digit(hex_digits()[value]),
        hex_digit_value(hex_digits()[value]) == value,
{
    let digits = hex_digits();
    assert(digits[0] == '0' && digits[1] == '1' && digits[2] == '2' && digits[3] == '3');
    assert(digits[4] == '4' && digits[5] == '5' && digits[6] == '6' && digits[7] == '7');
    assert(digits[8] == '8' && digits[9] == '9' && digits[10] == 'a' && digits[11] == 'b');
    assert(digits[12] == 'c' && digits[13] == 'd' && digits[14] == 'e' && digits[15] == 'f');
}

/// Every key of twelve bytes has a written form, and reading that form gives
/// the key back.
pub proof fn lemma_key_text_writes_key(bytes: Seq<u8>)
    requires
        bytes.len() == 12,
    ensures
        is_key_text(key_text(bytes)),
        key_bytes(key_text(bytes)) == bytes,
{
    let text = key_text(bytes);
    assert forall|i: int| 0 <= i < 24 implies is_hex_digit(#[trigger] text[i]) by {
        let byte = bytes[i / 2] as int;
        lemma_hex_digits(byte / 16);
        lemma_hex_digits(byte % 16);
    }
    assert forall|i: int| 0 <= i < 12 implies #[trigger] key_bytes(text)[i] == bytes[i] by {
        let byte = bytes[i] as int;
        lemma_hex_digits(byte / 16);
        lemma_hex_digits(byte % 16);
        assert((2 * i) / 2 == i && (2 * i) % 2 == 0);
        assert((2 * i + 1) / 2 == i && (2 * i + 1) % 2 == 1);
        assert(text[2 * i] == hex_digits()[byte / 16]);
        assert(text[2 * i + 1] == hex_digits()[byte % 16]);
        assert(16 * (byte / 16) + byte % 16 == byte);
    }
    assert(key_bytes(text) =~= bytes);
}

/// Calls `ObjectId::parse_str` and hands out the bytes of the identifier it read.
///
/// The outside function decodes the text as hexadecimal, upper and lower case
/// alike, and accepts it exactly when that gives twelve bytes.
#[verifier::external_body]
fn parse_object_id(text: &str) -> (bytes: Option<[u8; 12]>)
    ensures
        bytes is Some <==> is_key_text(text@),
        bytes matches Some(b) ==> b@ == key_bytes(text@),
{
    match ObjectId::parse_str(text) {
        Ok(id) => Some(id.bytes()),
        Err(_) => None,
    }
}

impl BookId {
    /// Reads a key from its written form.
    pub fn parse_str(text: &str) -> (id: Option<BookId>)
        ensures
            id is Some <==> is_key_text(text@),
            id matches Some(k) ==> k@ == key_bytes(text@),
    {
        match parse_object_id(text) {
            Some(bytes) => Some(BookId { bytes }),
            None => None,
        }
    }
}

} // verus!
