//! The tagged 64-bit value representation.
//!
//! Every guest-visible value travels as one 64-bit word. A word whose high 17
//! bits stay at or below the reserved maximum-double pattern is an ordinary
//! IEEE-754 double, kept bit-for-bit. Every other kind carves its word out of
//! the unreachable NaN region: the tag, `maximum-double pattern | type code`,
//! sits above the tag shift, and the low bits hold an inline payload (a 32-bit
//! integer, a boolean) or a reference handle of at most 47 bits.

use vstd::prelude::*;

verus! {

/// Number of low bits left for the payload; the tag sits above this shift.
pub const JSVAL_TAG_SHIFT: u64 = 47;

/// Highest 17-bit pattern a representable double may carry above the shift.
pub const JSVAL_TAG_MAX_DOUBLE: u64 = 0x1FFF0;

/// Type code for 32-bit integers.
pub const JSVAL_TYPE_INT32: u64 = 0x01;

/// Type code for the undefined value.
pub const JSVAL_TYPE_UNDEFINED: u64 = 0x02;

/// Type code for booleans.
pub const JSVAL_TYPE_BOOLEAN: u64 = 0x03;

/// Type code for string references.
pub const JSVAL_TYPE_STRING: u64 = 0x05;

/// Type code for the null value.
pub const JSVAL_TYPE_NULL: u64 = 0x06;

/// Type code for object references.
pub const JSVAL_TYPE_OBJECT: u64 = 0x07;

/// Tag of a 32-bit integer word.
pub const JSVAL_TAG_INT32: u64 = JSVAL_TAG_MAX_DOUBLE | JSVAL_TYPE_INT32;

/// Tag of the undefined word.
pub const JSVAL_TAG_UNDEFINED: u64 = JSVAL_TAG_MAX_DOUBLE | JSVAL_TYPE_UNDEFINED;

/// Tag of a boolean word.
pub const JSVAL_TAG_BOOLEAN: u64 = JSVAL_TAG_MAX_DOUBLE | JSVAL_TYPE_BOOLEAN;

/// Tag of a string-reference word.
pub const JSVAL_TAG_STRING: u64 = JSVAL_TAG_MAX_DOUBLE | JSVAL_TYPE_STRING;

/// Tag of the null word.
pub const JSVAL_TAG_NULL: u64 = JSVAL_TAG_MAX_DOUBLE | JSVAL_TYPE_NULL;

/// Tag of an object-reference word.
pub const JSVAL_TAG_OBJECT: u64 = JSVAL_TAG_MAX_DOUBLE | JSVAL_TYPE_OBJECT;

/// Mask of the 47 payload bits below the tag.
pub const JSVAL_PAYLOAD_MASK: u64 = 0x7FFF_FFFF_FFFF;

/// Canonical word for the undefined value.
pub const JSVAL_VOID: u64 = JSVAL_TAG_UNDEFINED << JSVAL_TAG_SHIFT;

/// Canonical word for the null value.
pub const JSVAL_NULL: u64 = JSVAL_TAG_NULL << JSVAL_TAG_SHIFT;

/// Canonical word for the integer zero.
pub const JSVAL_ZERO: u64 = JSVAL_TAG_INT32 << JSVAL_TAG_SHIFT;

/// Canonical word for the integer one.
pub const JSVAL_ONE: u64 = (JSVAL_TAG_INT32 << JSVAL_TAG_SHIFT) | 1;

/// Canonical word for false.
pub const JSVAL_FALSE: u64 = JSVAL_TAG_BOOLEAN << JSVAL_TAG_SHIFT;

/// Canonical word for true.
pub const JSVAL_TRUE: u64 = (JSVAL_TAG_BOOLEAN << JSVAL_TAG_SHIFT) | 1;

/// The closed set of guest-visible value kinds carried by one tagged word.
#[derive(Clone, Copy, PartialEq, Eq, Structural, Debug)]
pub enum DynamicValue {
    /// An IEEE-754 double, held as its raw bit pattern.
    Double { bits: u64 },
    /// A 32-bit integer held inline.
    Int32 { value: i32 },
    /// A boolean held inline.
    Boolean { value: bool },
    /// The null value.
    Null,
    /// The undefined value.
    Undefined,
    /// A handle to an engine-managed string.
    StringRef { handle: u64 },
    /// A handle to an engine-managed object.
    ObjectRef { handle: u64 },
}

/// The 47-bit payload that stands for a 32-bit integer: its two's-complement
/// image in the low 32 bits of the word.
pub open spec fn int32_payload(value: i32) -> u64 {
    if value >= 0 {
        value as u64
    } else {
        (value + 0x1_0000_0000) as u64
    }
}

/// The 32-bit integer read back from the low 32 bits of a word.
pub open spec fn payload_int32(low: u64) -> i32
    recommends
        low < 0x1_0000_0000,
{
    if low < 0x8000_0000 {
        low as i32
    } else {
        (low - 0x1_0000_0000) as i32
    }
}

impl DynamicValue {
    /// What a value must satisfy to fit the word layout: a double must stay
    /// out of the carved-out tag region, and a reference handle must fit in
    /// the 47 payload bits. This is the layout's documented platform
    /// constraint, not a defect of any one value.
    pub open spec fn well_formed(self) -> bool {
        match self {
            DynamicValue::Double { bits } => bits >> JSVAL_TAG_SHIFT <= JSVAL_TAG_MAX_DOUBLE,
            DynamicValue::StringRef { handle } => handle <= JSVAL_PAYLOAD_MASK,
            DynamicValue::ObjectRef { handle } => handle <= JSVAL_PAYLOAD_MASK,
            _ => true,
        }
    }
}

/// The word a value encodes to: a double keeps its raw bits; every other
/// kind is its shifted tag combined with its payload.
pub open spec fn encoding(value: DynamicValue) -> u64 {
    match value {
        DynamicValue::Double { bits } => bits,
        DynamicValue::Int32 { value } => (JSVAL_TAG_INT32 << JSVAL_TAG_SHIFT) | int32_payload(
            value,
        ),
        DynamicValue::Boolean { value } => (JSVAL_TAG_BOOLEAN << JSVAL_TAG_SHIFT) | (
        if value {
            1u64
        } else {
            0u64
        }),
        DynamicValue::Null => JSVAL_TAG_NULL << JSVAL_TAG_SHIFT,
        DynamicValue::Undefined => JSVAL_TAG_UNDEFINED << JSVAL_TAG_SHIFT,
        DynamicValue::StringRef { handle } => (JSVAL_TAG_STRING << JSVAL_TAG_SHIFT) | handle,
        DynamicValue::ObjectRef { handle } => (JSVAL_TAG_OBJECT << JSVAL_TAG_SHIFT) | handle,
    }
}

/// The value a word decodes to: doubles are whatever stays at or below the
/// maximum-double pattern; above it the tag selects the kind and the low
/// bits are the payload. Words in the reserved region whose tag matches no
/// kind decode to undefined; no well-formed encoding produces them.
pub open spec fn decoding(word: u64) -> DynamicValue {
    let tag = word >> JSVAL_TAG_SHIFT;
    if tag <= JSVAL_TAG_MAX_DOUBLE {
        DynamicValue::Double { bits: word }
    } else if tag == JSVAL_TAG_INT32 {
        DynamicValue::Int32 { value: payload_int32(word & 0xFFFF_FFFF) }
    } else if tag == JSVAL_TAG_UNDEFINED {
        DynamicValue::Undefined
    } else if tag == JSVAL_TAG_BOOLEAN {
        DynamicValue::Boolean { value: word & 1 == 1 }
    } else if tag == JSVAL_TAG_STRING {
        DynamicValue::StringRef { handle: word & JSVAL_PAYLOAD_MASK }
    } else if tag == JSVAL_TAG_NULL {
        DynamicValue::Null
    } else if tag == JSVAL_TAG_OBJECT {
        DynamicValue::ObjectRef { handle: word & JSVAL_PAYLOAD_MASK }
    } else {
        DynamicValue::Undefined
    }
}

/// Whether a word decodes to an object reference; everything else counts as
/// primitive for the calling convention.
pub open spec fn is_object_word(word: u64) -> bool {
    decoding(word) is ObjectRef
}

/// The object handle a word carries, for words that decode to an object
/// reference.
pub open spec fn object_handle_of(word: u64) -> u64
    recommends
        is_object_word(word),
{
    match decoding(word) {
        DynamicValue::ObjectRef { handle } => handle,
        _ => 0,
    }
}

/// The concrete 64-bit values of the shifted tags and canonical words,
/// spelled out once so later proofs can reason by plain arithmetic.
proof fn lemma_layout_values()
    ensures
        JSVAL_TAG_INT32 == 0x1FFF1,
        JSVAL_TAG_UNDEFINED == 0x1FFF2,
        JSVAL_TAG_BOOLEAN == 0x1FFF3,
        JSVAL_TAG_STRING == 0x1FFF5,
        JSVAL_TAG_NULL == 0x1FFF6,
        JSVAL_TAG_OBJECT == 0x1FFF7,
        JSVAL_TAG_INT32 << JSVAL_TAG_SHIFT == 0xFFF8_8000_0000_0000,
        JSVAL_TAG_UNDEFINED << JSVAL_TAG_SHIFT == 0xFFF9_0000_0000_0000,
        JSVAL_TAG_BOOLEAN << JSVAL_TAG_SHIFT == 0xFFF9_8000_0000_0000,
        JSVAL_TAG_STRING << JSVAL_TAG_SHIFT == 0xFFFA_8000_0000_0000,
        JSVAL_TAG_NULL << JSVAL_TAG_SHIFT == 0xFFFB_0000_0000_0000,
        JSVAL_TAG_OBJECT << JSVAL_TAG_SHIFT == 0xFFFB_8000_0000_0000,
{
    assert((0x1FFF0u64 | 0x01) == 0x1FFF1 && (0x1FFF0u64 | 0x02) == 0x1FFF2 && (0x1FFF0u64
        | 0x03) == 0x1FFF3 && (0x1FFF0u64 | 0x05) == 0x1FFF5 && (0x1FFF0u64 | 0x06) == 0x1FFF6 && (
    0x1FFF0u64 | 0x07) == 0x1FFF7 && 0x1FFF1u64 << 47 == 0xFFF8_8000_0000_0000 && 0x1FFF2u64 << 47
        == 0xFFF9_0000_0000_0000 && 0x1FFF3u64 << 47 == 0xFFF9_8000_0000_0000 && 0x1FFF5u64 << 47
        == 0xFFFA_8000_0000_0000 && 0x1FFF6u64 << 47 == 0xFFFB_0000_0000_0000 && 0x1FFF7u64 << 47
        == 0xFFFB_8000_0000_0000) by (bit_vector);
}

/// How a word of the form `shifted tag | payload` comes apart again, for any
/// payload within the 47 payload bits.
proof fn lemma_compose_decompose(tag: u64, payload: u64)
    requires
        0x1FFF1 <= tag <= 0x1FFF7,
        payload <= 0x7FFF_FFFF_FFFF,
    ensures
        ((tag << 47) | payload) >> 47 == tag,
        ((tag << 47) | payload) & 0x7FFF_FFFF_FFFF == payload,
        payload < 0x1_0000_0000 ==> ((tag << 47) | payload) & 0xFFFF_FFFF == payload,
        payload <= 1 ==> ((tag << 47) | payload) & 1 == payload,
{
    assert(((tag << 47) | payload) >> 47 == tag && ((tag << 47) | payload) & 0x7FFF_FFFF_FFFF
        == payload && (payload < 0x1_0000_0000 ==> ((tag << 47) | payload) & 0xFFFF_FFFF == payload)
        && (payload <= 1 ==> ((tag << 47) | payload) & 1 == payload)) by (bit_vector)
        requires
            0x1FFF1 <= tag <= 0x1FFF7,
            payload <= 0x7FFF_FFFF_FFFF,
    ;
}

/// Round-trip law: decoding the encoding of any well-formed value gives the
/// value back. For doubles this is bit-for-bit; for every other kind the tag
/// and payload are recovered exactly.
pub proof fn lemma_decode_encode(value: DynamicValue)
    requires
        value.well_formed(),
    ensures
        decoding(encoding(value)) == value,
{
    lemma_layout_values();
    match value {
        DynamicValue::Double { bits } => {
        },
        DynamicValue::Int32 { value: v } => {
            let payload = int32_payload(v);
            lemma_compose_decompose(JSVAL_TAG_INT32, payload);
        },
        DynamicValue::Boolean { value: b } => {
            let payload: u64 = if b {
                1
            } else {
                0
            };
            lemma_compose_decompose(JSVAL_TAG_BOOLEAN, payload);
        },
        DynamicValue::Null => {
            lemma_compose_decompose(JSVAL_TAG_NULL, 0);
            assert((0x1FFF6u64 << 47) | 0 == 0x1FFF6u64 << 47) by (bit_vector);
        },
        DynamicValue::Undefined => {
            lemma_compose_decompose(JSVAL_TAG_UNDEFINED, 0);
            assert((0x1FFF2u64 << 47) | 0 == 0x1FFF2u64 << 47) by (bit_vector);
        },
        DynamicValue::StringRef { handle } => {
            lemma_compose_decompose(JSVAL_TAG_STRING, handle);
        },
        DynamicValue::ObjectRef { handle } => {
            lemma_compose_decompose(JSVAL_TAG_OBJECT, handle);
        },
    }
}

/// Separation law: the encoding of a well-formed non-double never falls in
/// the double region, so no tagged word is ever mistaken for a double, and
/// reinterpreted as a double it reads as one of the reserved quiet NaNs.
pub proof fn lemma_tagged_outside_double_range(value: DynamicValue)
    requires
        value.well_formed(),
        !(value is Double),
    ensures
        encoding(value) >> JSVAL_TAG_SHIFT > JSVAL_TAG_MAX_DOUBLE,
        !(decoding(encoding(value)) is Double),
{
    lemma_layout_values();
    lemma_decode_encode(value);
    match value {
        DynamicValue::Double { .. } => {
        },
        DynamicValue::Int32 { value: v } => {
            lemma_compose_decompose(JSVAL_TAG_INT32, int32_payload(v));
        },
        DynamicValue::Boolean { value: b } => {
            lemma_compose_decompose(
                JSVAL_TAG_BOOLEAN,
                if b {
                    1
                } else {
                    0
                },
            );
        },
        DynamicValue::Null => {
            lemma_compose_decompose(JSVAL_TAG_NULL, 0);
        },
        DynamicValue::Undefined => {
            lemma_compose_decompose(JSVAL_TAG_UNDEFINED, 0);
        },
        DynamicValue::StringRef { handle } => {
            lemma_compose_decompose(JSVAL_TAG_STRING, handle);
        },
        DynamicValue::ObjectRef { handle } => {
            lemma_compose_decompose(JSVAL_TAG_OBJECT, handle);
        },
    }
}

/// Canonical-constant law: each predefined word is exactly the encoding of
/// its logical value, never a hand-picked number.
pub proof fn lemma_canonical_constants()
    ensures
        encoding(DynamicValue::Null) == JSVAL_NULL,
        encoding(DynamicValue::Undefined) == JSVAL_VOID,
        encoding(DynamicValue::Int32 { value: 0 }) == JSVAL_ZERO,
        encoding(DynamicValue::Int32 { value: 1 }) == JSVAL_ONE,
        encoding(DynamicValue::Boolean { value: false }) == JSVAL_FALSE,
        encoding(DynamicValue::Boolean { value: true }) == JSVAL_TRUE,
{
    lemma_layout_values();
    assert(0xFFF8_8000_0000_0000u64 | 0 == 0xFFF8_8000_0000_0000 && 0xFFF9_8000_0000_0000u64 | 0
        == 0xFFF9_8000_0000_0000 && 0xFFF8_8000_0000_0000u64 | 1 == 0xFFF8_8000_0000_0001
        && 0xFFF9_8000_0000_0000u64 | 1 == 0xFFF9_8000_0000_0001) by (bit_vector);
    assert(JSVAL_ONE == 0xFFF8_8000_0000_0001) by (bit_vector);
    assert(JSVAL_TRUE == 0xFFF9_8000_0000_0001) by (bit_vector);
}

/// Whether a raw double bit pattern fits the layout: everything at or below
/// the maximum-double pattern does; only NaNs inside the carved-out tag
/// region do not.
pub fn representable_double_bits(bits: u64) -> (ok: bool)
    ensures
        ok == (bits >> JSVAL_TAG_SHIFT <= JSVAL_TAG_MAX_DOUBLE),
        ok == (DynamicValue::Double { bits }.well_formed()),
{
    bits >> JSVAL_TAG_SHIFT <= JSVAL_TAG_MAX_DOUBLE
}

/// Encodes a well-formed value into its tagged word. The word also decodes
/// back to the value, so the codec is lossless on well-formed values.
pub fn encode(value: DynamicValue) -> (word: u64)
    requires
        value.well_formed(),
    ensures
        word == encoding(value),
        decoding(word) == value,
{
    proof {
        lemma_decode_encode(value);
    }
    match value {
        DynamicValue::Double { bits } => bits,
        DynamicValue::Int32 { value } => {
            let payload: u64 = if value >= 0 {
                value as u64
            } else {
                (value as i64 + 0x1_0000_0000i64) as u64
            };
            (JSVAL_TAG_INT32 << JSVAL_TAG_SHIFT) | payload
        },
        DynamicValue::Boolean { value } => {
            let payload: u64 = if value {
                1
            } else {
                0
            };
            (JSVAL_TAG_BOOLEAN << JSVAL_TAG_SHIFT) | payload
        },
        DynamicValue::Null => JSVAL_TAG_NULL << JSVAL_TAG_SHIFT,
        DynamicValue::Undefined => JSVAL_TAG_UNDEFINED << JSVAL_TAG_SHIFT,
        DynamicValue::StringRef { handle } => (JSVAL_TAG_STRING << JSVAL_TAG_SHIFT) | handle,
        DynamicValue::ObjectRef { handle } => (JSVAL_TAG_OBJECT << JSVAL_TAG_SHIFT) | handle,
    }
}

/// Decodes any word into the value it represents under the layout.
pub fn decode(word: u64) -> (value: DynamicValue)
    ensures
        value == decoding(word),
{
    let tag = word >> JSVAL_TAG_SHIFT;
    if tag <= JSVAL_TAG_MAX_DOUBLE {
        DynamicValue::Double { bits: word }
    } else if tag == JSVAL_TAG_INT32 {
        let low = word & 0xFFFF_FFFF;
        proof {
            assert(word & 0xFFFF_FFFF < 0x1_0000_0000) by (bit_vector);
        }
        let value: i32 = if low < 0x8000_0000 {
            low as i32
        } else {
            (low as i64 - 0x1_0000_0000i64) as i32
        };
        DynamicValue::Int32 { value }
    } else if tag == JSVAL_TAG_UNDEFINED {
        DynamicValue::Undefined
    } else if tag == JSVAL_TAG_BOOLEAN {
        DynamicValue::Boolean { value: word & 1 == 1 }
    } else if tag == JSVAL_TAG_STRING {
        DynamicValue::StringRef { handle: word & JSVAL_PAYLOAD_MASK }
    } else if tag == JSVAL_TAG_NULL {
        DynamicValue::Null
    } else if tag == JSVAL_TAG_OBJECT {
        DynamicValue::ObjectRef { handle: word & JSVAL_PAYLOAD_MASK }
    } else {
        DynamicValue::Undefined
    }
}

} // verus!
