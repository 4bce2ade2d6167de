//! Identifiers of documents in the durable store.

use mongodb::bson::oid::ObjectId;
use vstd::prelude::*;

verus! {

/// Whether a character is one of `0-9`, `a-f` or `A-F`.
pub open spec fn is_hex_digit(c: char) -> bool {
    ||| 0x30 <= c as u32 <= 0x39
    ||| 0x61 <= c as u32 <= 0x66
    ||| 0x41 <= c as u32 <= 0x46
}

/// The number that a hexadecimal digit stands for.
pub open spec fn hex_value(c: char) -> int {
    if 0x30 <= c as u32 <= 0x39 {
        c as u32 - 0x30
    } else if 0x61 <= c as u32 <= 0x66 {
        c as u32 - 0x61 + 10
    } else {
        c as u32 - 0x41 + 10
    }
}

/// Whether a text is the store's native form of a document key: exactly
/// twenty-four hexadecimal digits, in either letter case.
pub open spec fn is_document_id_text(text: Seq<char>) -> bool {
    &&& text.len() == 24
    &&& forall|i: int| 0 <= i < 24 ==> is_hex_digit(#[trigger] text[i])
}

/// The byte that the `i`-th pair of digits of a document key denotes.
pub open spec fn id_byte(text: Seq<char>, i: int) -> int {
    16 * hex_value(text[2 * i]) + hex_value(text[2 * i + 1])
}

/// The twelve bytes that a document key denotes.
pub open spec fn id_bytes_of(text: Seq<char>) -> Seq<u8> {
    Seq::new(12, |i: int| id_byte(text, i) as u8)
}

/// What a text denotes as a document key: its twelve bytes, or nothing where
/// the text is not a document key.
pub open spec fn document_id_of(text: Seq<char>) -> Option<Seq<u8>> {
    if is_document_id_text(text) {
        Some(id_bytes_of(text))
    } else {
        None
    }
}

/// The sixteen hexadecimal digits in lower case, by value.
pub open spec fn lower_hex_digits() -> Seq<char> {
    seq!['0', '1', '2', '3', '4', '5', '6', '7', '8', '9', 'a', 'b', 'c', 'd', 'e', 'f']
}

/// The textual form of a sequence of bytes: two lower-case hexadecimal
/// digits for each byte, the high half first.
pub open spec fn hex_text_of(bytes: Seq<u8>) -> Seq<char> {
    Seq::new(
        2 * bytes.len(),
        |i: int|
            if i % 2 == 0 {
                lower_hex_digits()[bytes[i / 2] as int / 16]
            } else {
                lower_hex_digits()[bytes[i / 2] as int % 16]
            },
    )
}

/// The durable store's key of one document: twelve bytes.
#[derive(Clone, Copy, Debug, PartialEq, Eq, Hash)]
pub struct DocumentId {
    pub bytes: [u8; 12],
}

impl View for DocumentId {
    type V = Seq<u8>;

    open spec fn view(&self) -> Seq<u8> {
        self.bytes@
    }
}

/// Calls `ObjectId::parse_str` of the `bson` crate (re-exported by `mongodb`)
/// and hands out the bytes of the identifier it returns.
///
/// Trusted: the call succeeds exactly on texts of twenty-four hexadecimal
/// digits, and each byte of the result is the value of one pair of digits,
/// the first digit of the pair being the high half.
#[verifier::external_body]
fn parse_object_id(text: &str) -> (parsed: Option<[u8; 12]>)
    ensures
        parsed is Some <==> is_document_id_text(text@),
        parsed matches Some(bytes) ==> bytes@ == id_bytes_of(text@),
{
    match ObjectId::parse_str(text) {
        Ok(id) => Some(id.bytes()),
        Err(_) => None,
    }
}

/// Calls `ObjectId::from_bytes` and then `ObjectId::to_hex` of the `bson`
/// crate (re-exported by `mongodb`).
///
/// Trusted: the text holds two lower-case hexadecimal digits for each of the
/// twelve bytes, in order, the high half of a byte first.
#[verifier::external_body]
fn object_id_hex(bytes: [u8; 12]) -> (text: String)
    ensures
        text@ == hex_text_of(bytes@),
{
    ObjectId::from_bytes(bytes).to_hex()
}

/// The bytes of an identifier that may be absent.
pub open spec fn id_view(id: Option<DocumentId>) -> Option<Seq<u8>> {
    match id {
        Some(d) => Some(d@),
        None => None,
    }
}

impl DocumentId {
    /// Parses the textual form of a document key. `None` is returned exactly
    /// for a text that is not twenty-four hexadecimal digits.
    pub fn parse(text: &str) -> (id: Option<DocumentId>)
        ensures
            id_view(id) == document_id_of(text@),
    {
        match parse_object_id(text) {
            Some(bytes) => Some(DocumentId { bytes }),
            None => None,
        }
    }

    /// The textual form of the identifier: twenty-four hexadecimal digits in
    /// lower case.
    pub fn to_hex(&self) -> (text: String)
        ensures
            text@ == hex_text_of(self@),
    {
        object_id_hex(self.bytes)
    }
}

/// The textual form of an identifier is a document key, and it denotes the
/// identifier it was made from.
pub proof fn lemma_hex_round_trip(bytes: Seq<u8>)
    requires
        bytes.len() == 12,
    ensures
        document_id_of(hex_text_of(bytes)) == Some(bytes),
{
}

} // verus!
