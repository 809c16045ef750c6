//! Identifiers: 128-bit UUIDs, held as the big-endian reading of their bytes.

use vstd::prelude::*;

verus! {

/// A UUID. `value` is the number that its sixteen bytes spell, first byte
/// most significant, so that `<` on values is the byte-wise order.
#[derive(Clone, Copy, Debug, PartialEq, Eq, Structural, Hash, PartialOrd, Ord)]
pub struct Uuid {
    pub value: u128,
}

/// What `bson::Uuid::parse_str` makes of a text, as the big-endian value of
/// the UUID it reads, or `None` where it rejects the text.
pub uninterp spec fn parsed_uuid(text: Seq<char>) -> Option<u128>;

/// The sixteen lower-case hexadecimal digits.
pub open spec fn hex_digits() -> Seq<char> {
    seq!['0', '1', '2', '3', '4', '5', '6', '7', '8', '9', 'a', 'b', 'c', 'd', 'e', 'f']
}

/// 16 to the power `e` (1 for a negative `e`).
pub open spec fn pow16(e: int) -> int
    decreases e,
{
    if e <= 0 {
        1
    } else {
        16 * pow16(e - 1)
    }
}

/// The `k`-th of the 32 hexadecimal digits of `value`, most significant first.
pub open spec fn nibble(value: u128, k: int) -> int {
    (value as int / pow16(31 - k)) % 16
}

/// How many hyphens stand before position `p` of the hyphenated form.
pub open spec fn hyphens_before(p: int) -> int {
    if p < 8 {
        0
    } else if p < 13 {
        1
    } else if p < 18 {
        2
    } else if p < 23 {
        3
    } else {
        4
    }
}

/// The canonical text of a UUID: 36 characters, lower-case hexadecimal digits
/// in groups of 8, 4, 4, 4 and 12, with a hyphen between groups.
pub open spec fn hyphenated(value: u128) -> Seq<char> {
    Seq::new(
        36,
        |p: int|
            if p == 8 || p == 13 || p == 18 || p == 23 {
                '-'
            } else {
                hex_digits()[nibble(value, p - hyphens_before(p))]
            },
    )
}

/// The number that a sequence of bytes spells, first byte most significant.
pub open spec fn be_value(bytes: Seq<u8>) -> int
    decreases bytes.len(),
{
    if bytes.len() == 0 {
        0
    } else {
        be_value(bytes.drop_last()) * 256 + bytes.last() as int
    }
}

/// What a BSON binary value holds as a UUID: the value of its bytes where the
/// subtype is 4 (UUID) and there are exactly sixteen bytes, else nothing.
pub open spec fn binary_uuid(subtype: u8, bytes: Seq<u8>) -> Option<Uuid> {
    if subtype == 4 && bytes.len() == 16 {
        Some(Uuid { value: be_value(bytes) as u128 })
    } else {
        None
    }
}

/// 256 to the power `e` (1 for a negative `e`).
pub open spec fn pow256(e: int) -> int
    decreases e,
{
    if e <= 0 {
        1
    } else {
        256 * pow256(e - 1)
    }
}

/// The sixteen bytes that spell `value`, most significant first.
pub open spec fn be_bytes(value: u128) -> Seq<u8> {
    Seq::new(16, |j: int| ((value as int / pow256(15 - j)) % 256) as u8)
}

/// The canonical text of what `text` parses to, where it parses.
pub open spec fn canonical_text(text: Seq<char>) -> Option<Seq<char>> {
    match parsed_uuid(text) {
        Some(value) => Some(hyphenated(value)),
        None => None,
    }
}

/// Calls `bson::Uuid::parse_str` and reads the bytes of the UUID, first byte
/// most significant. Trusted: the result is the named value `parsed_uuid` of
/// the text, and the hyphenated lower-case form of a UUID parses back to that
/// UUID.
#[verifier::external_body]
pub(crate) fn parse_uuid(text: &str) -> (parsed: Option<Uuid>)
    ensures
        parsed == match parsed_uuid(text@) {
            Some(value) => Some(Uuid { value }),
            None => None::<Uuid>,
        },
        forall|value: u128| text@ == hyphenated(value) ==> parsed == Some(Uuid { value }),
{
    match bson::Uuid::parse_str(text) {
        Ok(uuid) => Some(Uuid { value: u128::from_be_bytes(uuid.bytes()) }),
        Err(_) => None,
    }
}

/// Calls `to_string` of `bson::Uuid`, which prints the hyphenated lower-case
/// form. Trusted: the text is `hyphenated` of the value.
#[verifier::external_body]
pub(crate) fn format_uuid(id: Uuid) -> (text: String)
    ensures
        text@ == hyphenated(id.value),
{
    bson::Uuid::from_bytes(id.value.to_be_bytes()).to_string()
}

/// Calls `bson::Uuid::new`, which draws a random UUID from the operating
/// system's random numbers. Nothing is claimed of the result.
#[verifier::external_body]
pub(crate) fn random_uuid() -> (id: Uuid) {
    Uuid { value: u128::from_be_bytes(bson::Uuid::new().bytes()) }
}

/// Calls `bson::Binary::to_uuid` on a binary value with the given subtype and
/// bytes. Trusted: it succeeds exactly for subtype 4 with sixteen bytes, and
/// the UUID then has those bytes.
#[verifier::external_body]
pub(crate) fn binary_to_uuid(subtype: u8, bytes: &Vec<u8>) -> (id: Option<Uuid>)
    ensures
        id == binary_uuid(subtype, bytes@),
{
    let subtype = bson::spec::BinarySubtype::from(subtype);
    match (bson::Binary { subtype, bytes: bytes.clone() }).to_uuid() {
        Ok(uuid) => Some(Uuid { value: u128::from_be_bytes(uuid.bytes()) }),
        Err(_) => None,
    }
}

/// Calls `bson::Binary::from_uuid` and hands out the subtype and the bytes
/// of the binary value. Trusted: the subtype is 4 (UUID) and the bytes are
/// the sixteen bytes of the UUID, most significant first.
#[verifier::external_body]
pub(crate) fn uuid_to_binary(id: Uuid) -> (binary: (u8, Vec<u8>))
    ensures
        binary.0 == 4,
        binary.1@ == be_bytes(id.value),
{
    let binary = bson::Binary::from_uuid(bson::Uuid::from_bytes(id.value.to_be_bytes()));
    (u8::from(binary.subtype), binary.bytes)
}

impl Uuid {
    /// The UUID whose bytes spell `value`.
    pub fn from_u128(value: u128) -> (id: Uuid)
        ensures
            id.value == value,
    {
        Uuid { value }
    }
}

/// Brings an identifier, in whatever case and punctuation it arrived, to the
/// one form in which it is stored: the hyphenated lower-case text. `None`
/// where the text is no UUID.
pub fn canonical_id(text: &str) -> (canonical: Option<String>)
    ensures
        match canonical_text(text@) {
            Some(expected) => canonical matches Some(got) && got@ == expected,
            None => canonical is None,
        },
        forall|value: u128|
            text@ == hyphenated(value) ==> (canonical matches Some(got) && got@ == text@),
{
    match parse_uuid(text) {
        Some(id) => Some(format_uuid(id)),
        None => None,
    }
}

/// The bytes that spell a value spell that value: a UUID that is written as
/// a binary value is read back as itself.
pub proof fn law_binary_round_trip(value: u128)
    ensures
        be_value(be_bytes(value)) == value,
        binary_uuid(4, be_bytes(value)) == Some(Uuid { value }),
{
    let bytes = be_bytes(value);
    lemma_prefix_value(value, 16);
    assert(bytes.take(16) == bytes);
    assert(pow256(0) == 1);
}

/// The first `k` bytes of a value spell the value without its last `16 - k`
/// bytes.
proof fn lemma_prefix_value(value: u128, k: int)
    requires
        0 <= k <= 16,
    ensures
        be_value(be_bytes(value).take(k)) == value as int / pow256(16 - k),
        pow256(16 - k) > 0,
    decreases k,
{
    let bytes = be_bytes(value);
    lemma_pow256_positive(16 - k);
    if k == 0 {
        lemma_pow256_sixteen();
        assert(bytes.take(0).len() == 0);
        vstd::arithmetic::div_mod::lemma_basic_div(value as int, pow256(16));
    } else {
        lemma_prefix_value(value, k - 1);
        lemma_pow256_positive(16 - k);
        let d = pow256(16 - k);
        let x = value as int / d;
        assert(bytes.take(k).drop_last() == bytes.take(k - 1));
        assert(bytes.take(k).last() == bytes[k - 1]);
        assert(pow256(16 - (k - 1)) == 256 * d);
        vstd::arithmetic::div_mod::lemma_div_denominator(value as int, d, 256);
        assert(d * 256 == 256 * d) by (nonlinear_arith);
        vstd::arithmetic::div_mod::lemma_fundamental_div_mod(x, 256);
        assert(0 <= x % 256 < 256);
        assert(bytes[k - 1] as int == x % 256);
        assert((x / 256) * 256 == 256 * (x / 256)) by (nonlinear_arith);
    }
}

/// Powers of 256 are positive.
proof fn lemma_pow256_positive(e: int)
    ensures
        pow256(e) > 0,
    decreases e,
{
    if e > 0 {
        lemma_pow256_positive(e - 1);
        assert(256 * pow256(e - 1) > 0) by (nonlinear_arith)
            requires
                pow256(e - 1) > 0,
        ;
    }
}

/// Every 128-bit value lies below the sixteenth power of 256.
proof fn lemma_pow256_sixteen()
    ensures
        pow256(16) == 0x1_0000_0000_0000_0000_0000_0000_0000_0000,
{
    assert(pow256(0) == 1);
    assert(pow256(1) == 0x100);
    assert(pow256(2) == 0x1_0000);
    assert(pow256(3) == 0x100_0000);
    assert(pow256(4) == 0x1_0000_0000);
    assert(pow256(5) == 0x100_0000_0000);
    assert(pow256(6) == 0x1_0000_0000_0000);
    assert(pow256(7) == 0x100_0000_0000_0000);
    assert(pow256(8) == 0x1_0000_0000_0000_0000);
    assert(pow256(9) == 0x100_0000_0000_0000_0000);
    assert(pow256(10) == 0x1_0000_0000_0000_0000_0000);
    assert(pow256(11) == 0x100_0000_0000_0000_0000_0000);
    assert(pow256(12) == 0x1_0000_0000_0000_0000_0000_0000);
    assert(pow256(13) == 0x100_0000_0000_0000_0000_0000_0000);
    assert(pow256(14) == 0x1_0000_0000_0000_0000_0000_0000_0000);
    assert(pow256(15) == 0x100_0000_0000_0000_0000_0000_0000_0000);
    assert(pow256(16) == 0x1_0000_0000_0000_0000_0000_0000_0000_0000);
}

} // verus!
