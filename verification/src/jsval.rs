//! The tagged value word.
//!
//! A value is one 64-bit word. A word at or below
//! [`JSVAL_SHIFTED_TAG_MAX_DOUBLE`] is the bit pattern of an IEEE-754 double
//! and stands for itself. Every other word holds a type tag in its upper 17
//! bits and a payload in its lower 47 bits. The layout is the one that the
//! engine uses on 64-bit targets, bit for bit.
//!
//! Doubles are handed in and out as their bit patterns: this module holds no
//! floating-point arithmetic.

use crate::jsapi::{BigIntPtr, ObjectPtr, StringPtr, SymbolPtr, TraceKind};
use vstd::arithmetic::power2::{
    lemma2_to64, lemma2_to64_rest, lemma_pow2_adds, lemma_pow2_unfold, pow2,
};
use vstd::prelude::*;

verus! {

/// Number of low bits that hold the payload of a tagged word.
pub const JSVAL_TAG_SHIFT: u64 = 47;

/// The largest tag field of a word that is a double.
pub const JSVAL_TAG_MAX_DOUBLE: u64 = 0x1FFF0;

/// Mask of the payload bits of a tagged word.
pub const JSVAL_PAYLOAD_MASK: u64 = 0x0000_7FFF_FFFF_FFFF;

/// Mask of the address bits that are zero in every reference to a cell.
pub const CELL_ALIGN_MASK: u64 = 7;

pub const JSVAL_TAG_INT32: u64 = 0x1FFF1;

pub const JSVAL_TAG_BOOLEAN: u64 = 0x1FFF2;

pub const JSVAL_TAG_UNDEFINED: u64 = 0x1FFF3;

pub const JSVAL_TAG_NULL: u64 = 0x1FFF4;

pub const JSVAL_TAG_MAGIC: u64 = 0x1FFF5;

pub const JSVAL_TAG_STRING: u64 = 0x1FFF6;

pub const JSVAL_TAG_SYMBOL: u64 = 0x1FFF7;

pub const JSVAL_TAG_PRIVATE_GCTHING: u64 = 0x1FFF8;

pub const JSVAL_TAG_BIGINT: u64 = 0x1FFF9;

pub const JSVAL_TAG_OBJECT: u64 = 0x1FFFC;

/// The largest word that is a double.
pub const JSVAL_SHIFTED_TAG_MAX_DOUBLE: u64 = 0xFFF8_0000_FFFF_FFFF;

pub const JSVAL_SHIFTED_TAG_INT32: u64 = 0xFFF8_8000_0000_0000;

pub const JSVAL_SHIFTED_TAG_BOOLEAN: u64 = 0xFFF9_0000_0000_0000;

pub const JSVAL_SHIFTED_TAG_UNDEFINED: u64 = 0xFFF9_8000_0000_0000;

pub const JSVAL_SHIFTED_TAG_NULL: u64 = 0xFFFA_0000_0000_0000;

pub const JSVAL_SHIFTED_TAG_MAGIC: u64 = 0xFFFA_8000_0000_0000;

pub const JSVAL_SHIFTED_TAG_STRING: u64 = 0xFFFB_0000_0000_0000;

pub const JSVAL_SHIFTED_TAG_SYMBOL: u64 = 0xFFFB_8000_0000_0000;

pub const JSVAL_SHIFTED_TAG_PRIVATE_GCTHING: u64 = 0xFFFC_0000_0000_0000;

pub const JSVAL_SHIFTED_TAG_BIGINT: u64 = 0xFFFC_8000_0000_0000;

pub const JSVAL_SHIFTED_TAG_OBJECT: u64 = 0xFFFE_0000_0000_0000;

/// The type tags of the words that are not doubles.
#[derive(Clone, Copy, PartialEq, Eq, Structural, Debug)]
pub enum ValueTag {
    INT32,
    UNDEFINED,
    NULL,
    BOOLEAN,
    MAGIC,
    STRING,
    SYMBOL,
    PRIVATE_GCTHING,
    BIGINT,
    OBJECT,
}

impl ValueTag {
    /// The tag as it stands in the upper 17 bits of a word.
    pub open spec fn spec_bits(self) -> u64 {
        match self {
            ValueTag::INT32 => JSVAL_TAG_INT32,
            ValueTag::UNDEFINED => JSVAL_TAG_UNDEFINED,
            ValueTag::NULL => JSVAL_TAG_NULL,
            ValueTag::BOOLEAN => JSVAL_TAG_BOOLEAN,
            ValueTag::MAGIC => JSVAL_TAG_MAGIC,
            ValueTag::STRING => JSVAL_TAG_STRING,
            ValueTag::SYMBOL => JSVAL_TAG_SYMBOL,
            ValueTag::PRIVATE_GCTHING => JSVAL_TAG_PRIVATE_GCTHING,
            ValueTag::BIGINT => JSVAL_TAG_BIGINT,
            ValueTag::OBJECT => JSVAL_TAG_OBJECT,
        }
    }

    /// The word that holds this tag and the payload zero.
    pub open spec fn spec_shifted(self) -> u64 {
        match self {
            ValueTag::INT32 => JSVAL_SHIFTED_TAG_INT32,
            ValueTag::UNDEFINED => JSVAL_SHIFTED_TAG_UNDEFINED,
            ValueTag::NULL => JSVAL_SHIFTED_TAG_NULL,
            ValueTag::BOOLEAN => JSVAL_SHIFTED_TAG_BOOLEAN,
            ValueTag::MAGIC => JSVAL_SHIFTED_TAG_MAGIC,
            ValueTag::STRING => JSVAL_SHIFTED_TAG_STRING,
            ValueTag::SYMBOL => JSVAL_SHIFTED_TAG_SYMBOL,
            ValueTag::PRIVATE_GCTHING => JSVAL_SHIFTED_TAG_PRIVATE_GCTHING,
            ValueTag::BIGINT => JSVAL_SHIFTED_TAG_BIGINT,
            ValueTag::OBJECT => JSVAL_SHIFTED_TAG_OBJECT,
        }
    }

    #[verifier::when_used_as_spec(spec_bits)]
    pub fn bits(self) -> (r: u64)
        ensures
            r == self.spec_bits(),
    {
        match self {
            ValueTag::INT32 => JSVAL_TAG_INT32,
            ValueTag::UNDEFINED => JSVAL_TAG_UNDEFINED,
            ValueTag::NULL => JSVAL_TAG_NULL,
            ValueTag::BOOLEAN => JSVAL_TAG_BOOLEAN,
            ValueTag::MAGIC => JSVAL_TAG_MAGIC,
            ValueTag::STRING => JSVAL_TAG_STRING,
            ValueTag::SYMBOL => JSVAL_TAG_SYMBOL,
            ValueTag::PRIVATE_GCTHING => JSVAL_TAG_PRIVATE_GCTHING,
            ValueTag::BIGINT => JSVAL_TAG_BIGINT,
            ValueTag::OBJECT => JSVAL_TAG_OBJECT,
        }
    }

    #[verifier::when_used_as_spec(spec_shifted)]
    pub fn shifted(self) -> (r: u64)
        ensures
            r == self.spec_shifted(),
    {
        match self {
            ValueTag::INT32 => JSVAL_SHIFTED_TAG_INT32,
            ValueTag::UNDEFINED => JSVAL_SHIFTED_TAG_UNDEFINED,
            ValueTag::NULL => JSVAL_SHIFTED_TAG_NULL,
            ValueTag::BOOLEAN => JSVAL_SHIFTED_TAG_BOOLEAN,
            ValueTag::MAGIC => JSVAL_SHIFTED_TAG_MAGIC,
            ValueTag::STRING => JSVAL_SHIFTED_TAG_STRING,
            ValueTag::SYMBOL => JSVAL_SHIFTED_TAG_SYMBOL,
            ValueTag::PRIVATE_GCTHING => JSVAL_SHIFTED_TAG_PRIVATE_GCTHING,
            ValueTag::BIGINT => JSVAL_SHIFTED_TAG_BIGINT,
            ValueTag::OBJECT => JSVAL_SHIFTED_TAG_OBJECT,
        }
    }
}

/// A value of the engine: one tagged 64-bit word. Two values are equal when
/// their words are.
#[derive(Clone, Copy, PartialEq, Eq, Structural, Debug)]
pub struct JSVal {
    pub asBits_: u64,
}

/// What a word stands for.
pub enum ValueView {
    /// A double, by its bit pattern.
    Double(u64),
    Int32(i32),
    Boolean(bool),
    Undefined,
    Null,
    /// An engine-internal marker, by its payload.
    Magic(u64),
    /// A reference to a string, by the address it holds.
    String(u64),
    /// A reference to a symbol, by the address it holds.
    Symbol(u64),
    /// A reference to an engine-internal cell, by the address it holds.
    PrivateGCThing(u64),
    /// A reference to a big integer, by the address it holds.
    BigInt(u64),
    /// A reference to an object, by the address it holds.
    Object(u64),
    /// A word that no constructor gives.
    Invalid,
}

impl View for JSVal {
    type V = ValueView;

    open spec fn view(&self) -> ValueView {
        let bits = self.asBits_;
        let tag = bits >> JSVAL_TAG_SHIFT;
        let payload = bits & JSVAL_PAYLOAD_MASK;
        if bits <= JSVAL_SHIFTED_TAG_MAX_DOUBLE {
            ValueView::Double(bits)
        } else if tag == JSVAL_TAG_INT32 {
            ValueView::Int32((bits & 0xFFFF_FFFF) as i32)
        } else if tag == JSVAL_TAG_BOOLEAN {
            ValueView::Boolean(payload != 0)
        } else if bits == JSVAL_SHIFTED_TAG_UNDEFINED {
            ValueView::Undefined
        } else if bits == JSVAL_SHIFTED_TAG_NULL {
            ValueView::Null
        } else if tag == JSVAL_TAG_MAGIC {
            ValueView::Magic(payload)
        } else if tag == JSVAL_TAG_STRING {
            ValueView::String(payload)
        } else if tag == JSVAL_TAG_SYMBOL {
            ValueView::Symbol(payload)
        } else if tag == JSVAL_TAG_PRIVATE_GCTHING {
            ValueView::PrivateGCThing(payload)
        } else if tag == JSVAL_TAG_BIGINT {
            ValueView::BigInt(payload)
        } else if tag == JSVAL_TAG_OBJECT {
            ValueView::Object(payload)
        } else {
            ValueView::Invalid
        }
    }
}

/// An address fits the payload of a tagged word.
pub open spec fn gc_pointer_valid(bits: u64) -> bool {
    bits >> JSVAL_TAG_SHIFT == 0
}

/// An address is a multiple of the cell size.
pub open spec fn gc_pointer_aligned(bits: u64) -> bool {
    bits & CELL_ALIGN_MASK == 0
}

/// An address has its upper 16 bits clear.
pub open spec fn spec_is_valid_user_mode_pointer(bits: u64) -> bool {
    bits & 0xFFFF_0000_0000_0000 == 0
}

/// The word that holds `tag` over `payload`.
pub open spec fn spec_build_jsval(tag: ValueTag, payload: u64) -> JSVal {
    JSVal { asBits_: (tag.spec_bits() << JSVAL_TAG_SHIFT) | payload }
}

pub open spec fn spec_int32_value(i: i32) -> JSVal {
    JSVal { asBits_: JSVAL_SHIFTED_TAG_INT32 | (i as u32 as u64) }
}

pub open spec fn spec_undefined_value() -> JSVal {
    JSVal { asBits_: JSVAL_SHIFTED_TAG_UNDEFINED }
}

pub open spec fn spec_null_value() -> JSVal {
    JSVal { asBits_: JSVAL_SHIFTED_TAG_NULL }
}

pub open spec fn spec_double_value(bits: u64) -> JSVal {
    JSVal { asBits_: bits }
}

pub open spec fn spec_boolean_value(b: bool) -> JSVal {
    JSVal { asBits_: JSVAL_SHIFTED_TAG_BOOLEAN | (if b { 1u64 } else { 0u64 }) }
}

/// The bit pattern of the double whose value is `ui`, for `ui` of 2^31 and
/// more: the exponent field is 1023 + 31 and the 52 bits below it hold
/// `ui - 2^31`, moved up by 21 places.
pub open spec fn double_bits_of_u32(ui: u32) -> u64 {
    (0x41E0_0000_0000_0000 + (ui - 0x8000_0000) * 0x20_0000) as u64
}

pub open spec fn spec_uint32_value(ui: u32) -> JSVal {
    if ui > 0x7fff_ffff {
        spec_double_value(double_bits_of_u32(ui))
    } else {
        spec_int32_value(ui as i32)
    }
}

pub open spec fn spec_string_value(s: StringPtr) -> JSVal {
    JSVal { asBits_: JSVAL_SHIFTED_TAG_STRING | s.addr }
}

pub open spec fn spec_symbol_value(s: SymbolPtr) -> JSVal {
    JSVal { asBits_: JSVAL_SHIFTED_TAG_SYMBOL | s.addr }
}

pub open spec fn spec_bigint_value(s: BigIntPtr) -> JSVal {
    JSVal { asBits_: JSVAL_SHIFTED_TAG_BIGINT | s.addr }
}

pub open spec fn spec_object_value(o: ObjectPtr) -> JSVal {
    JSVal { asBits_: JSVAL_SHIFTED_TAG_OBJECT | o.addr }
}

pub open spec fn spec_object_or_null_value(o: ObjectPtr) -> JSVal {
    if o.addr == 0 {
        spec_null_value()
    } else {
        spec_object_value(o)
    }
}

pub open spec fn spec_private_value(o: u64) -> JSVal {
    JSVal { asBits_: o }
}

/// What the shifts and masks of this module mean as arithmetic.
pub proof fn lemma_word_arithmetic(bits: u64)
    by (bit_vector)
    ensures
        bits >> 47 == bits / 0x8000_0000_0000,
        bits & 0x0000_7FFF_FFFF_FFFF == bits % 0x8000_0000_0000,
        bits & 0xFFFF_FFFF == bits % 0x1_0000_0000,
        (bits & 0xFFFF_0000_0000_0000 == 0) == (bits < 0x1_0000_0000_0000),
        (bits & 7 == 0) == (bits % 8 == 0),
{
}

/// A tag over a payload is the tag's multiple of 2^47 plus the payload.
pub proof fn lemma_tag_over_payload(shifted: u64, payload: u64)
    by (bit_vector)
    requires
        shifted % 0x8000_0000_0000 == 0,
        payload < 0x8000_0000_0000,
    ensures
        shifted | payload == shifted + payload,
        (shifted | payload) >> 47 == shifted >> 47,
        (shifted | payload) & 0x0000_7FFF_FFFF_FFFF == payload,
{
}

/// The shifted tags are the tags, moved up by 47 places.
pub proof fn lemma_shifted_tags()
    by (bit_vector)
    ensures
        0x1FFF0u64 << 47 == 0xFFF8_0000_0000_0000u64,
        0x1FFF1u64 << 47 == 0xFFF8_8000_0000_0000u64,
        0x1FFF2u64 << 47 == 0xFFF9_0000_0000_0000u64,
        0x1FFF3u64 << 47 == 0xFFF9_8000_0000_0000u64,
        0x1FFF4u64 << 47 == 0xFFFA_0000_0000_0000u64,
        0x1FFF5u64 << 47 == 0xFFFA_8000_0000_0000u64,
        0x1FFF6u64 << 47 == 0xFFFB_0000_0000_0000u64,
        0x1FFF7u64 << 47 == 0xFFFB_8000_0000_0000u64,
        0x1FFF8u64 << 47 == 0xFFFC_0000_0000_0000u64,
        0x1FFF9u64 << 47 == 0xFFFC_8000_0000_0000u64,
        0x1FFFCu64 << 47 == 0xFFFE_0000_0000_0000u64,
{
}

/// A 32-bit integer under the integer tag comes back unchanged.
pub proof fn lemma_int32_word(i: i32)
    by (bit_vector)
    ensures
        (i as u32 as u64) < 0x1_0000_0000,
        ((0xFFF8_8000_0000_0000u64 | (i as u32 as u64)) & 0xFFFF_FFFF) as i32 == i,
{
}

/// The word of an unsigned integer of 2^31 and more is a double, with the
/// exponent and the fraction that stand for that integer.
pub proof fn lemma_double_bits_of_u32(ui: u32)
    by (bit_vector)
    requires
        ui > 0x7fff_ffffu32,
    ensures
        0x41E0_0000_0000_0000u64 | (((ui as u64) & 0x7FFF_FFFF) << 21) == (0x41E0_0000_0000_0000
            + (ui - 0x8000_0000) * 0x20_0000) as u64,
        (0x41E0_0000_0000_0000u64 | (((ui as u64) & 0x7FFF_FFFF) << 21)) >> 52 == 0x41E,
        0x10_0000_0000_0000 + ((0x41E0_0000_0000_0000u64 | (((ui as u64) & 0x7FFF_FFFF) << 21))
            & 0xF_FFFF_FFFF_FFFF) == ui * 0x20_0000,
        0x41E0_0000_0000_0000u64 | (((ui as u64) & 0x7FFF_FFFF) << 21) <= 0xFFF8_0000_FFFF_FFFFu64,
{
}

/// The largest power of two that is at most `m`, for `m` of one and more.
pub open spec fn leading_power(m: nat) -> nat
    decreases m,
{
    if m <= 1 {
        1
    } else {
        2 * leading_power(m / 2)
    }
}

/// The exponent of the largest power of two that is at most `m`, for `m`
/// of one and more.
pub open spec fn leading_exponent(m: nat) -> nat
    decreases m,
{
    if m <= 1 {
        0
    } else {
        1 + leading_exponent(m / 2)
    }
}

/// The magnitude of a 32-bit integer.
pub open spec fn magnitude(i: i32) -> nat {
    if i < 0 {
        (-i) as nat
    } else {
        i as nat
    }
}

/// The bit pattern of the double whose value is `i`: the sign, then the
/// exponent of the largest power of two in the magnitude of `i`, raised by
/// 1023, then what the magnitude has beyond that power, moved up to fill
/// the 52 bits of the fraction. Zero is all bits zero.
pub open spec fn double_bits_of_int32(i: i32) -> u64 {
    if i == 0 {
        0
    } else {
        let m = magnitude(i);
        let sign: int = if i < 0 {
            0x8000_0000_0000_0000
        } else {
            0
        };
        (sign + (1023 + leading_exponent(m)) * 0x10_0000_0000_0000 + (m - leading_power(m)) * (
        0x10_0000_0000_0000int / leading_power(m) as int)) as u64
    }
}

/// Between a power of two and the next, the largest power of two is that
/// one.
pub proof fn lemma_leading_power(m: nat, e: nat)
    requires
        pow2(e) <= m < 2 * pow2(e),
    ensures
        leading_power(m) == pow2(e),
        leading_exponent(m) == e,
    decreases e,
{
    if e > 0 {
        lemma_pow2_unfold(e);
        lemma_leading_power(m / 2, (e - 1) as nat);
    } else {
        lemma2_to64();
    }
}

pub fn BuildJSVal(tag: ValueTag, payload: u64) -> (v: JSVal)
    ensures
        v == spec_build_jsval(tag, payload),
        v.asBits_ == tag.spec_shifted() | payload,
{
    proof {
        lemma_shifted_tags();
    }
    JSVal { asBits_: (tag.bits() << JSVAL_TAG_SHIFT) | payload }
}

/// Accepts the addresses that fit a payload, and no others.
pub fn AssertGCPointerValid(bits: u64)
    requires
        gc_pointer_valid(bits),
{
}

/// Accepts the addresses that are multiples of the cell size, and no others.
pub fn AssertGCPointerAlignment(bits: u64)
    requires
        gc_pointer_aligned(bits),
{
}

#[verifier::when_used_as_spec(spec_is_valid_user_mode_pointer)]
pub fn IsValidUserModePointer(bits: u64) -> (b: bool)
    ensures
        b == spec_is_valid_user_mode_pointer(bits),
        b == (bits < 0x1_0000_0000_0000),
{
    proof {
        lemma_word_arithmetic(bits);
    }
    bits & 0xFFFF_0000_0000_0000 == 0
}

#[verifier::when_used_as_spec(spec_int32_value)]
pub fn Int32Value(i: i32) -> (v: JSVal)
    ensures
        v == spec_int32_value(i),
        v@ == ValueView::Int32(i),
        v.spec_to_tag() <= JSVAL_TAG_OBJECT,
{
    proof {
        lemma_shifted_tags();
        lemma_int32_word(i);
        lemma_tag_over_payload(JSVAL_SHIFTED_TAG_INT32, i as u32 as u64);
        lemma_word_arithmetic(JSVAL_SHIFTED_TAG_INT32);
        lemma_word_arithmetic(JSVAL_SHIFTED_TAG_INT32 | (i as u32 as u64));
    }
    BuildJSVal(ValueTag::INT32, i as u32 as u64)
}

#[verifier::when_used_as_spec(spec_undefined_value)]
pub fn UndefinedValue() -> (v: JSVal)
    ensures
        v == spec_undefined_value(),
        v@ == ValueView::Undefined,
        v.spec_to_tag() <= JSVAL_TAG_OBJECT,
{
    proof {
        lemma_tag_over_payload(JSVAL_SHIFTED_TAG_UNDEFINED, 0);
        lemma_word_arithmetic(JSVAL_SHIFTED_TAG_UNDEFINED);
    }
    BuildJSVal(ValueTag::UNDEFINED, 0)
}

#[verifier::when_used_as_spec(spec_null_value)]
pub fn NullValue() -> (v: JSVal)
    ensures
        v == spec_null_value(),
        v@ == ValueView::Null,
        v.spec_payload() == 0 && gc_pointer_aligned(0),
        v.spec_to_tag() <= JSVAL_TAG_OBJECT,
{
    proof {
        lemma_tag_over_payload(JSVAL_SHIFTED_TAG_NULL, 0);
        lemma_word_arithmetic(0);
        lemma_word_arithmetic(JSVAL_SHIFTED_TAG_NULL);
    }
    BuildJSVal(ValueTag::NULL, 0)
}

/// The value that is the double with the bit pattern `bits`.
#[verifier::when_used_as_spec(spec_double_value)]
pub fn DoubleValue(bits: u64) -> (v: JSVal)
    requires
        bits <= JSVAL_SHIFTED_TAG_MAX_DOUBLE,
    ensures
        v == spec_double_value(bits),
        v@ == ValueView::Double(bits),
        v.spec_to_tag() <= JSVAL_TAG_OBJECT,
{
    proof {
        lemma_word_arithmetic(bits);
    }
    JSVal { asBits_: bits }
}

/// The bit pattern of the double whose value is `i`.
pub fn int32_to_double_bits(i: i32) -> (bits: u64)
    ensures
        bits == double_bits_of_int32(i),
        bits <= JSVAL_SHIFTED_TAG_MAX_DOUBLE,
        i != 0 ==> (bits / 0x10_0000_0000_0000) % 0x800 == 1023 + leading_exponent(magnitude(i)),
        i != 0 ==> (0x10_0000_0000_0000 + bits % 0x10_0000_0000_0000) * leading_power(
            magnitude(i),
        ) == magnitude(i) * 0x10_0000_0000_0000,
        (bits >= 0x8000_0000_0000_0000) == (i < 0),
{
    if i == 0 {
        return 0;
    }
    let m: u64 = if i < 0 {
        (-(i as i64)) as u64
    } else {
        i as u64
    };
    let mut p: u64 = 1;
    let mut q: u64 = 0x10_0000_0000_0000;
    let mut e: u64 = 0;
    proof {
        lemma2_to64();
        lemma2_to64_rest();
    }
    while p <= m / 2
        invariant
            1 <= p <= m <= 0x8000_0000,
            p == pow2(e as nat),
            q == pow2((52 - e) as nat),
            e <= 31,
        decreases m - p,
    {
        proof {
            lemma2_to64();
            if e >= 31 {
                assert(p == 0x8000_0000);
            }
            lemma_pow2_unfold((e + 1) as nat);
            lemma_pow2_unfold((52 - e) as nat);
        }
        p = p * 2;
        q = q / 2;
        e = e + 1;
    }
    let sign: u64 = if i < 0 {
        0x8000_0000_0000_0000
    } else {
        0
    };
    proof {
        lemma_leading_power(m as nat, e as nat);
        assert(m as nat == magnitude(i));
        lemma_pow2_adds(e as nat, (52 - e) as nat);
        lemma2_to64_rest();
        assert(p * q == 0x10_0000_0000_0000);
        assert(0x10_0000_0000_0000int / p as int == q) by (nonlinear_arith)
            requires
                p * q == 0x10_0000_0000_0000,
                p >= 1,
        ;
        assert((m - p) * q < 0x10_0000_0000_0000 && (m - p) * q >= 0 && (0x10_0000_0000_0000
            + (m - p) * q) * p == m * 0x10_0000_0000_0000) by (nonlinear_arith)
            requires
                p * q == 0x10_0000_0000_0000,
                p <= m < 2 * p,
                q >= 0,
        ;
    }
    let fraction: u64 = (m - p) * q;
    let exponent: u64 = (1023 + e) * 0x10_0000_0000_0000;
    let bits = sign + exponent + fraction;
    proof {
        assert(bits / 0x10_0000_0000_0000 == (sign / 0x10_0000_0000_0000) + 1023 + e);
        assert(bits % 0x10_0000_0000_0000 == fraction);
    }
    bits
}

#[verifier::when_used_as_spec(spec_uint32_value)]
pub fn UInt32Value(ui: u32) -> (v: JSVal)
    ensures
        v == spec_uint32_value(ui),
        ui <= 0x7fff_ffff ==> v@ == ValueView::Int32(ui as i32),
        ui > 0x7fff_ffff ==> v@ == ValueView::Double(double_bits_of_u32(ui)),
        ui > 0x7fff_ffff ==> v.asBits_ >> 52 == 0x41E && 0x10_0000_0000_0000 + (v.asBits_
            & 0xF_FFFF_FFFF_FFFF) == ui * 0x20_0000,
        v.spec_to_tag() <= JSVAL_TAG_OBJECT,
{
    if ui > 0x7fffffff {
        proof {
            lemma_double_bits_of_u32(ui);
        }
        DoubleValue(0x41E0_0000_0000_0000u64 | (((ui as u64) & 0x7FFF_FFFF) << 21))
    } else {
        Int32Value(ui as i32)
    }
}

#[verifier::when_used_as_spec(spec_string_value)]
pub fn StringValue(s: StringPtr) -> (v: JSVal)
    requires
        gc_pointer_valid(s.addr),
    ensures
        v == spec_string_value(s),
        v@ == ValueView::String(s.addr),
        v.spec_payload() == s.addr,
        v.spec_to_tag() <= JSVAL_TAG_OBJECT,
{
    let bits = s.addr;
    AssertGCPointerValid(bits);
    proof {
        lemma_word_arithmetic(bits);
        lemma_tag_over_payload(JSVAL_SHIFTED_TAG_STRING, bits);
        lemma_word_arithmetic(JSVAL_SHIFTED_TAG_STRING);
        lemma_word_arithmetic(JSVAL_SHIFTED_TAG_STRING | bits);
    }
    BuildJSVal(ValueTag::STRING, bits)
}

#[verifier::when_used_as_spec(spec_symbol_value)]
pub fn SymbolValue(s: SymbolPtr) -> (v: JSVal)
    requires
        gc_pointer_valid(s.addr),
    ensures
        v == spec_symbol_value(s),
        v@ == ValueView::Symbol(s.addr),
        v.spec_payload() == s.addr,
        v.spec_to_tag() <= JSVAL_TAG_OBJECT,
{
    let bits = s.addr;
    AssertGCPointerValid(bits);
    proof {
        lemma_word_arithmetic(bits);
        lemma_tag_over_payload(JSVAL_SHIFTED_TAG_SYMBOL, bits);
        lemma_word_arithmetic(JSVAL_SHIFTED_TAG_SYMBOL);
        lemma_word_arithmetic(JSVAL_SHIFTED_TAG_SYMBOL | bits);
    }
    BuildJSVal(ValueTag::SYMBOL, bits)
}

#[verifier::when_used_as_spec(spec_bigint_value)]
pub fn BigIntValue(s: BigIntPtr) -> (v: JSVal)
    requires
        gc_pointer_valid(s.addr),
    ensures
        v == spec_bigint_value(s),
        v@ == ValueView::BigInt(s.addr),
        v.spec_payload() == s.addr,
        v.spec_to_tag() <= JSVAL_TAG_OBJECT,
{
    let bits = s.addr;
    AssertGCPointerValid(bits);
    proof {
        lemma_word_arithmetic(bits);
        lemma_tag_over_payload(JSVAL_SHIFTED_TAG_BIGINT, bits);
        lemma_word_arithmetic(JSVAL_SHIFTED_TAG_BIGINT);
        lemma_word_arithmetic(JSVAL_SHIFTED_TAG_BIGINT | bits);
    }
    BuildJSVal(ValueTag::BIGINT, bits)
}

#[verifier::when_used_as_spec(spec_boolean_value)]
pub fn BooleanValue(b: bool) -> (v: JSVal)
    ensures
        v == spec_boolean_value(b),
        v@ == ValueView::Boolean(b),
        v.spec_to_tag() <= JSVAL_TAG_OBJECT,
{
    let payload: u64 = if b { 1 } else { 0 };
    proof {
        lemma_tag_over_payload(JSVAL_SHIFTED_TAG_BOOLEAN, payload);
        lemma_word_arithmetic(JSVAL_SHIFTED_TAG_BOOLEAN);
        lemma_word_arithmetic(JSVAL_SHIFTED_TAG_BOOLEAN | payload);
    }
    BuildJSVal(ValueTag::BOOLEAN, payload)
}

#[verifier::when_used_as_spec(spec_object_value)]
pub fn ObjectValue(o: ObjectPtr) -> (v: JSVal)
    requires
        gc_pointer_valid(o.addr),
    ensures
        v == spec_object_value(o),
        v@ == ValueView::Object(o.addr),
        v.spec_payload() == o.addr,
        v.spec_to_tag() <= JSVAL_TAG_OBJECT,
{
    let bits = o.addr;
    AssertGCPointerValid(bits);
    proof {
        lemma_word_arithmetic(bits);
        lemma_tag_over_payload(JSVAL_SHIFTED_TAG_OBJECT, bits);
        lemma_word_arithmetic(JSVAL_SHIFTED_TAG_OBJECT);
        lemma_word_arithmetic(JSVAL_SHIFTED_TAG_OBJECT | bits);
    }
    BuildJSVal(ValueTag::OBJECT, bits)
}

#[verifier::when_used_as_spec(spec_object_or_null_value)]
pub fn ObjectOrNullValue(o: ObjectPtr) -> (v: JSVal)
    requires
        gc_pointer_valid(o.addr),
    ensures
        v == spec_object_or_null_value(o),
        o.addr == 0 ==> v@ == ValueView::Null,
        o.addr != 0 ==> v@ == ValueView::Object(o.addr),
        v.spec_to_tag() <= JSVAL_TAG_OBJECT,
        v.spec_payload() == o.addr,
{
    if o.is_null() {
        NullValue()
    } else {
        ObjectValue(o)
    }
}

/// The value that carries an address of the embedding, which the collector
/// does not follow. The word is in the range of the doubles.
#[verifier::when_used_as_spec(spec_private_value)]
pub fn PrivateValue(o: u64) -> (v: JSVal)
    requires
        spec_is_valid_user_mode_pointer(o),
    ensures
        v == spec_private_value(o),
        v@ == ValueView::Double(o),
        v.spec_is_private(),
{
    let ptrBits = o;
    proof {
        lemma_word_arithmetic(ptrBits);
    }
    JSVal { asBits_: ptrBits }
}

impl JSVal {
    pub open spec fn spec_as_bits(&self) -> u64 {
        self.asBits_
    }

    pub open spec fn spec_payload(&self) -> u64 {
        self.asBits_ & JSVAL_PAYLOAD_MASK
    }

    pub open spec fn spec_to_tag(&self) -> u64 {
        self.asBits_ >> JSVAL_TAG_SHIFT
    }

    pub open spec fn spec_is_undefined(&self) -> bool {
        self.asBits_ == JSVAL_SHIFTED_TAG_UNDEFINED
    }

    pub open spec fn spec_is_null(&self) -> bool {
        self.asBits_ == JSVAL_SHIFTED_TAG_NULL
    }

    pub open spec fn spec_is_null_or_undefined(&self) -> bool {
        self.spec_is_null() || self.spec_is_undefined()
    }

    pub open spec fn spec_is_int32(&self) -> bool {
        self.spec_to_tag() == JSVAL_TAG_INT32
    }

    pub open spec fn spec_is_double(&self) -> bool {
        self.asBits_ <= JSVAL_SHIFTED_TAG_MAX_DOUBLE
    }

    pub open spec fn spec_is_number(&self) -> bool {
        self.asBits_ < JSVAL_SHIFTED_TAG_BOOLEAN
    }

    pub open spec fn spec_is_string(&self) -> bool {
        self.spec_to_tag() == JSVAL_TAG_STRING
    }

    pub open spec fn spec_is_symbol(&self) -> bool {
        self.spec_to_tag() == JSVAL_TAG_SYMBOL
    }

    pub open spec fn spec_is_bigint(&self) -> bool {
        self.spec_to_tag() == JSVAL_TAG_BIGINT
    }

    pub open spec fn spec_is_object(&self) -> bool {
        self.asBits_ >= JSVAL_SHIFTED_TAG_OBJECT
    }

    pub open spec fn spec_is_primitive(&self) -> bool {
        self.asBits_ < JSVAL_SHIFTED_TAG_OBJECT
    }

    pub open spec fn spec_is_object_or_null(&self) -> bool {
        self.spec_is_object() || self.spec_is_null()
    }

    pub open spec fn spec_is_numeric(&self) -> bool {
        self.spec_is_number() || self.spec_is_bigint()
    }

    pub open spec fn spec_is_gcthing(&self) -> bool {
        self.asBits_ >= JSVAL_SHIFTED_TAG_STRING
    }

    pub open spec fn spec_is_boolean(&self) -> bool {
        self.spec_to_tag() == JSVAL_TAG_BOOLEAN
    }

    pub open spec fn spec_is_magic(&self) -> bool {
        self.spec_to_tag() == JSVAL_TAG_MAGIC
    }

    pub open spec fn spec_is_private(&self) -> bool {
        self.spec_is_double() && spec_is_valid_user_mode_pointer(self.asBits_)
    }

    pub open spec fn spec_is_markable(&self) -> bool {
        self.spec_is_gcthing() && !self.spec_is_null()
    }

    pub open spec fn spec_to_int32(&self) -> i32 {
        (self.asBits_ & 0xFFFF_FFFF) as i32
    }

    pub open spec fn spec_to_double(&self) -> u64 {
        self.asBits_
    }

    pub open spec fn spec_to_boolean(&self) -> bool {
        self.spec_payload() != 0
    }

    pub open spec fn spec_to_object_or_null(&self) -> ObjectPtr {
        ObjectPtr { addr: self.spec_payload() }
    }

    /// How many of the ten type predicates hold of this value.
    pub open spec fn types_held(&self) -> int {
        (if self.spec_is_undefined() { 1int } else { 0 })
        + (if self.spec_is_null() { 1int } else { 0 })
        + (if self.spec_is_boolean() { 1int } else { 0 })
        + (if self.spec_is_int32() { 1int } else { 0 })
        + (if self.spec_is_double() { 1int } else { 0 })
        + (if self.spec_is_string() { 1int } else { 0 })
        + (if self.spec_is_symbol() { 1int } else { 0 })
        + (if self.spec_is_bigint() { 1int } else { 0 })
        + (if self.spec_is_object() { 1int } else { 0 })
        + (if self.spec_is_magic() { 1int } else { 0 })
    }

    #[verifier::when_used_as_spec(spec_as_bits)]
    pub fn asBits(&self) -> (bits: u64)
        ensures
            bits == self.asBits_,
    {
        self.asBits_
    }

    #[verifier::when_used_as_spec(spec_payload)]
    pub fn payload(&self) -> (p: u64)
        ensures
            p == self.spec_payload(),
            p == self.asBits_ % 0x8000_0000_0000,
    {
        proof {
            lemma_word_arithmetic(self.asBits_);
        }
        self.asBits_ & JSVAL_PAYLOAD_MASK
    }

    #[verifier::when_used_as_spec(spec_to_tag)]
    pub fn toTag(&self) -> (tag: u64)
        ensures
            tag == self.spec_to_tag(),
            tag == self.asBits_ / 0x8000_0000_0000,
    {
        proof {
            lemma_word_arithmetic(self.asBits_);
        }
        self.asBits_ >> JSVAL_TAG_SHIFT
    }

    #[verifier::when_used_as_spec(spec_is_undefined)]
    pub fn is_undefined(&self) -> (b: bool)
        ensures
            b == self.spec_is_undefined(),
            b == (self@ is Undefined),
    {
        proof {
            lemma_word_arithmetic(self.asBits_);
        }
        self.asBits() == JSVAL_SHIFTED_TAG_UNDEFINED
    }

    #[verifier::when_used_as_spec(spec_is_null)]
    pub fn is_null(&self) -> (b: bool)
        ensures
            b == self.spec_is_null(),
            b == (self@ is Null),
    {
        proof {
            lemma_word_arithmetic(self.asBits_);
        }
        self.asBits() == JSVAL_SHIFTED_TAG_NULL
    }

    #[verifier::when_used_as_spec(spec_is_null_or_undefined)]
    pub fn is_null_or_undefined(&self) -> (b: bool)
        ensures
            b == self.spec_is_null_or_undefined(),
            b == (self@ is Null || self@ is Undefined),
    {
        self.is_null() || self.is_undefined()
    }

    #[verifier::when_used_as_spec(spec_is_int32)]
    pub fn is_int32(&self) -> (b: bool)
        ensures
            b == self.spec_is_int32(),
            b == (self@ is Int32),
    {
        proof {
            lemma_word_arithmetic(self.asBits_);
        }
        self.toTag() == JSVAL_TAG_INT32
    }

    #[verifier::when_used_as_spec(spec_is_double)]
    pub fn is_double(&self) -> (b: bool)
        ensures
            b == self.spec_is_double(),
            b == (self@ is Double),
    {
        proof {
            lemma_word_arithmetic(self.asBits_);
        }
        self.asBits() <= JSVAL_SHIFTED_TAG_MAX_DOUBLE
    }

    #[verifier::when_used_as_spec(spec_is_number)]
    pub fn is_number(&self) -> (b: bool)
        ensures
            b == self.spec_is_number(),
            self@ is Double || self@ is Int32 ==> b,
            b ==> self@ is Double || self@ is Int32 || self@ is Invalid,
    {
        proof {
            lemma_word_arithmetic(self.asBits_);
        }
        self.asBits() < JSVAL_SHIFTED_TAG_BOOLEAN
    }

    #[verifier::when_used_as_spec(spec_is_string)]
    pub fn is_string(&self) -> (b: bool)
        ensures
            b == self.spec_is_string(),
            b == (self@ is String),
    {
        proof {
            lemma_word_arithmetic(self.asBits_);
        }
        self.toTag() == JSVAL_TAG_STRING
    }

    #[verifier::when_used_as_spec(spec_is_symbol)]
    pub fn is_symbol(&self) -> (b: bool)
        ensures
            b == self.spec_is_symbol(),
            b == (self@ is Symbol),
    {
        proof {
            lemma_word_arithmetic(self.asBits_);
        }
        self.toTag() == JSVAL_TAG_SYMBOL
    }

    #[verifier::when_used_as_spec(spec_is_bigint)]
    pub fn is_bigint(&self) -> (b: bool)
        ensures
            b == self.spec_is_bigint(),
            b == (self@ is BigInt),
    {
        proof {
            lemma_word_arithmetic(self.asBits_);
        }
        self.toTag() == JSVAL_TAG_BIGINT
    }

    /// Whether the value is a reference to an object. The tag of the word
    /// is at most the object tag: no word above it is a value.
    #[verifier::when_used_as_spec(spec_is_object)]
    pub fn is_object(&self) -> (b: bool)
        requires
            self.spec_to_tag() <= JSVAL_TAG_OBJECT,
        ensures
            b == self.spec_is_object(),
            b == (self@ is Object),
    {
        proof {
            lemma_word_arithmetic(self.asBits_);
        }
        self.asBits() >= JSVAL_SHIFTED_TAG_OBJECT
    }

    #[verifier::when_used_as_spec(spec_is_primitive)]
    pub fn is_primitive(&self) -> (b: bool)
        ensures
            b == self.spec_is_primitive(),
            self@ is Object ==> !b,
    {
        proof {
            lemma_word_arithmetic(self.asBits_);
        }
        self.asBits() < JSVAL_SHIFTED_TAG_OBJECT
    }

    #[verifier::when_used_as_spec(spec_is_object_or_null)]
    pub fn is_object_or_null(&self) -> (b: bool)
        requires
            self.spec_to_tag() <= JSVAL_TAG_OBJECT,
        ensures
            b == self.spec_is_object_or_null(),
            b == (self@ is Object || self@ is Null),
    {
        self.is_object() || self.is_null()
    }

    #[verifier::when_used_as_spec(spec_is_numeric)]
    pub fn is_numeric(&self) -> (b: bool)
        ensures
            b == self.spec_is_numeric(),
            self@ is Double || self@ is Int32 || self@ is BigInt ==> b,
    {
        self.is_number() || self.is_bigint()
    }

    #[verifier::when_used_as_spec(spec_is_gcthing)]
    pub fn is_gcthing(&self) -> (b: bool)
        ensures
            b == self.spec_is_gcthing(),
            self@ is String || self@ is Symbol || self@ is PrivateGCThing || self@ is BigInt
                || self@ is Object ==> b,
            b ==> !(self@ is Double || self@ is Int32 || self@ is Boolean || self@ is Undefined
                || self@ is Null || self@ is Magic),
    {
        proof {
            lemma_word_arithmetic(self.asBits_);
        }
        self.asBits() >= JSVAL_SHIFTED_TAG_STRING
    }

    #[verifier::when_used_as_spec(spec_is_boolean)]
    pub fn is_boolean(&self) -> (b: bool)
        ensures
            b == self.spec_is_boolean(),
            b == (self@ is Boolean),
    {
        proof {
            lemma_word_arithmetic(self.asBits_);
        }
        (self.asBits() >> JSVAL_TAG_SHIFT) == JSVAL_TAG_BOOLEAN
    }

    #[verifier::when_used_as_spec(spec_is_magic)]
    pub fn is_magic(&self) -> (b: bool)
        ensures
            b == self.spec_is_magic(),
            b == (self@ is Magic),
    {
        proof {
            lemma_word_arithmetic(self.asBits_);
        }
        self.toTag() == JSVAL_TAG_MAGIC
    }

    #[verifier::when_used_as_spec(spec_to_int32)]
    pub fn to_int32(&self) -> (i: i32)
        requires
            self.spec_is_int32(),
        ensures
            i == self.spec_to_int32(),
            self@ == ValueView::Int32(i),
    {
        proof {
            lemma_word_arithmetic(self.asBits_);
        }
        (self.asBits() & 0xFFFFFFFF) as i32
    }

    /// The bit pattern of the double that the value is.
    #[verifier::when_used_as_spec(spec_to_double)]
    pub fn to_double(&self) -> (bits: u64)
        requires
            self.spec_is_double(),
        ensures
            bits == self.asBits_,
            self@ == ValueView::Double(bits),
    {
        self.asBits()
    }

    /// The bit pattern of the double that has the value of the number:
    /// that of the double itself, or that of the double of the integer.
    pub fn to_number(&self) -> (bits: u64)
        requires
            self.spec_is_number(),
            self.spec_is_double() || self.spec_is_int32(),
        ensures
            self.spec_is_double() ==> bits == self.asBits_,
            !self.spec_is_double() ==> bits == double_bits_of_int32(self.spec_to_int32()),
            bits <= JSVAL_SHIFTED_TAG_MAX_DOUBLE,
    {
        if self.is_double() {
            self.to_double()
        } else {
            int32_to_double_bits(self.to_int32())
        }
    }

    pub fn to_string(&self) -> (s: StringPtr)
        requires
            self.spec_is_string(),
            gc_pointer_aligned(self.spec_payload()),
        ensures
            s.addr == self.spec_payload(),
            self@ == ValueView::String(s.addr),
    {
        proof {
            lemma_word_arithmetic(self.asBits_);
        }
        let ptrBits = self.payload();
        AssertGCPointerAlignment(ptrBits);
        StringPtr { addr: ptrBits }
    }

    pub fn to_symbol(&self) -> (s: SymbolPtr)
        requires
            self.spec_is_symbol(),
            gc_pointer_aligned(self.spec_payload()),
        ensures
            s.addr == self.spec_payload(),
            self@ == ValueView::Symbol(s.addr),
    {
        proof {
            lemma_word_arithmetic(self.asBits_);
        }
        let ptrBits = self.payload();
        AssertGCPointerAlignment(ptrBits);
        SymbolPtr { addr: ptrBits }
    }

    pub fn to_bigint(&self) -> (s: BigIntPtr)
        requires
            self.spec_is_bigint(),
            gc_pointer_aligned(self.spec_payload()),
        ensures
            s.addr == self.spec_payload(),
            self@ == ValueView::BigInt(s.addr),
    {
        proof {
            lemma_word_arithmetic(self.asBits_);
        }
        let ptrBits = self.payload();
        AssertGCPointerAlignment(ptrBits);
        BigIntPtr { addr: ptrBits }
    }

    pub fn to_object(&self) -> (o: ObjectPtr)
        requires
            self.spec_to_tag() <= JSVAL_TAG_OBJECT,
            self.spec_is_object(),
            gc_pointer_aligned(self.spec_payload()),
        ensures
            o.addr == self.spec_payload(),
            self@ == ValueView::Object(o.addr),
    {
        proof {
            lemma_word_arithmetic(self.asBits_);
        }
        let _ = self.is_object();
        self.to_object_or_null()
    }

    /// The object that the value refers to, or the null reference for the
    /// null value.
    #[verifier::when_used_as_spec(spec_to_object_or_null)]
    pub fn to_object_or_null(&self) -> (o: ObjectPtr)
        requires
            self.spec_to_tag() <= JSVAL_TAG_OBJECT,
            self.spec_is_object_or_null(),
            gc_pointer_aligned(self.spec_payload()),
        ensures
            o == self.spec_to_object_or_null(),
            self@ is Null ==> o.addr == 0,
            self@ is Object ==> self@ == ValueView::Object(o.addr),
    {
        proof {
            lemma_word_arithmetic(self.asBits_);
        }
        let _ = self.is_object_or_null();
        let ptrBits = self.payload();
        AssertGCPointerAlignment(ptrBits);
        ObjectPtr { addr: ptrBits }
    }

    /// The address of the cell that the value refers to.
    pub fn to_gcthing(&self) -> (addr: u64)
        requires
            self.spec_is_gcthing(),
            gc_pointer_aligned(self.spec_payload()),
        ensures
            addr == self.spec_payload(),
    {
        let ptrBits = self.payload();
        AssertGCPointerAlignment(ptrBits);
        ptrBits
    }

    #[verifier::when_used_as_spec(spec_to_boolean)]
    pub fn to_boolean(&self) -> (b: bool)
        requires
            self.spec_is_boolean(),
        ensures
            b == self.spec_to_boolean(),
            self@ == ValueView::Boolean(b),
    {
        proof {
            lemma_word_arithmetic(self.asBits_);
        }
        self.payload() != 0
    }

    #[verifier::when_used_as_spec(spec_is_private)]
    pub fn is_private(&self) -> (b: bool)
        ensures
            b == self.spec_is_private(),
            b == (self.asBits_ < 0x1_0000_0000_0000),
    {
        proof {
            lemma_word_arithmetic(self.asBits_);
        }
        self.is_double() && IsValidUserModePointer(self.asBits())
    }

    /// The address of the embedding that the value carries.
    pub fn to_private(&self) -> (addr: u64)
        requires
            self.spec_is_private(),
        ensures
            addr == self.asBits_,
    {
        self.asBits()
    }

    #[verifier::when_used_as_spec(spec_is_markable)]
    pub fn is_markable(&self) -> (b: bool)
        ensures
            b == self.spec_is_markable(),
            self@ is String || self@ is Symbol || self@ is PrivateGCThing || self@ is BigInt
                || self@ is Object ==> b,
    {
        self.is_gcthing() && !self.is_null()
    }

    /// The kind of thing that the value refers to. A reference under the
    /// tag of the engine-internal cells counts as one to a big integer, as
    /// every reference does that is none of the other three.
    pub fn trace_kind(&self) -> (kind: TraceKind)
        requires
            self.spec_to_tag() <= JSVAL_TAG_OBJECT,
            self.spec_is_markable(),
        ensures
            self@ is Object <==> kind == TraceKind::Object,
            self@ is String <==> kind == TraceKind::String,
            self@ is Symbol <==> kind == TraceKind::Symbol,
            !(self@ is Object || self@ is String || self@ is Symbol) <==> kind
                == TraceKind::BigInt,
            self@ is BigInt ==> kind == TraceKind::BigInt,
    {
        let _ = self.is_markable();
        if self.is_object() {
            TraceKind::Object
        } else if self.is_string() {
            TraceKind::String
        } else if self.is_symbol() {
            TraceKind::Symbol
        } else {
            TraceKind::BigInt
        }
    }
}

impl Default for JSVal {
    fn default() -> (v: JSVal)
        ensures
            v == spec_undefined_value(),
    {
        UndefinedValue()
    }
}

/// A 32-bit integer, a boolean, a double, null and undefined each come back
/// from their word as they went in, and each word is of exactly one type.
pub proof fn lemma_primitives_round_trip(i: i32, b: bool, d: u64)
    requires
        d <= JSVAL_SHIFTED_TAG_MAX_DOUBLE,
    ensures
        Int32Value(i).is_int32() && Int32Value(i).to_int32() == i,
        BooleanValue(b).is_boolean() && BooleanValue(b).to_boolean() == b,
        DoubleValue(d).is_double() && DoubleValue(d).to_double() == d,
        NullValue().is_null() && NullValue()@ == ValueView::Null,
        UndefinedValue().is_undefined() && UndefinedValue()@ == ValueView::Undefined,
        Int32Value(i).types_held() == 1,
        BooleanValue(b).types_held() == 1,
        DoubleValue(d).types_held() == 1,
        NullValue().types_held() == 1,
        UndefinedValue().types_held() == 1,
{
    let payload: u64 = if b { 1 } else { 0 };
    lemma_int32_word(i);
    lemma_tag_over_payload(JSVAL_SHIFTED_TAG_INT32, i as u32 as u64);
    lemma_tag_over_payload(JSVAL_SHIFTED_TAG_BOOLEAN, payload);
    lemma_word_arithmetic(JSVAL_SHIFTED_TAG_INT32);
    lemma_word_arithmetic(JSVAL_SHIFTED_TAG_BOOLEAN);
    lemma_word_arithmetic(Int32Value(i).asBits_);
    lemma_word_arithmetic(BooleanValue(b).asBits_);
    lemma_word_arithmetic(d);
    lemma_word_arithmetic(JSVAL_SHIFTED_TAG_NULL);
    lemma_word_arithmetic(JSVAL_SHIFTED_TAG_UNDEFINED);
}

/// A word that stands for something is of exactly one type, but for a
/// reference to an engine-internal cell, which none of the ten predicates
/// knows.
pub proof fn lemma_one_type_per_value(v: JSVal)
    requires
        !(v@ is Invalid),
    ensures
        v.spec_to_tag() <= JSVAL_TAG_OBJECT,
        v@ is PrivateGCThing ==> v.types_held() == 0,
        !(v@ is PrivateGCThing) ==> v.types_held() == 1,
        v.is_undefined() <==> v@ is Undefined,
        v.is_null() <==> v@ is Null,
        v.is_boolean() <==> v@ is Boolean,
        v.is_int32() <==> v@ is Int32,
        v.is_double() <==> v@ is Double,
        v.is_string() <==> v@ is String,
        v.is_symbol() <==> v@ is Symbol,
        v.is_bigint() <==> v@ is BigInt,
        v.is_object() <==> v@ is Object,
        v.is_magic() <==> v@ is Magic,
        v.is_number() <==> v@ is Int32 || v@ is Double,
        v.is_gcthing() <==> v@ is String || v@ is Symbol || v@ is PrivateGCThing || v@ is BigInt
            || v@ is Object,
        v.is_primitive() <==> !(v@ is Object),
{
    lemma_word_arithmetic(v.asBits_);
}

/// The arguments of a call whose words are `vp`: what follows the slots of
/// the callee and of `this`.
pub fn JS_ARGV(vp: &[JSVal]) -> (argv: &[JSVal])
    requires
        vp@.len() >= 2,
    ensures
        argv@ == vp@.subrange(2, vp@.len() as int),
{
    vstd::slice::slice_subrange(vp, 2, vp.len())
}

/// The callee of a call whose words are `vp`: what the first slot holds.
pub fn JS_CALLEE(vp: &[JSVal]) -> (callee: JSVal)
    requires
        vp@.len() >= 1,
    ensures
        callee == vp@[0],
{
    vp[0]
}

} // verus!
