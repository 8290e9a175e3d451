use crate::le_bytes::{
    le_encode, le_value, le_words, lemma_le_encode_len, lemma_le_encode_of_value,
    lemma_le_value_bound, lemma_le_value_of_encode, pow256, read_le, split_le_words, write_le,
};
use vstd::prelude::*;
use vstd::slice::{slice_subrange, slice_to_vec};
use vstd::std_specs::convert::TryFromSpec;
use vstd::std_specs::convert::TryFromSpecImpl;
use vstd::std_specs::cmp::PartialEqSpecImpl;

verus! {

/// Marks the value-type descriptions that may carry byte-count information.
pub trait SealedValType {}

/// The WebAssembly value types that values of this library can take.
#[derive(Debug, Clone, Copy, PartialEq, Eq, Hash, Structural)]
pub enum ValType {
    I32,
    I64,
    F32,
    F64,
    V128,
    FuncRef,
    ExternRef,
}

impl SealedValType for ValType {}

impl ValType {
    /// The number of bytes that a value of this type occupies.
    pub open spec fn spec_byte_count(self) -> u8 {
        match self {
            ValType::I32 => 4,
            ValType::I64 => 8,
            ValType::F32 => 4,
            ValType::F64 => 8,
            ValType::V128 => 16,
            ValType::FuncRef => 4,
            ValType::ExternRef => 4,
        }
    }

    /// The number of bytes that a value of this type occupies.
    pub fn size_in_bytes(&self) -> (r: u8)
        ensures
            r == self.spec_byte_count(),
    {
        match self {
            ValType::I32 => 4,
            ValType::I64 => 8,
            ValType::F32 => 4,
            ValType::F64 => 8,
            ValType::V128 => 16,
            ValType::FuncRef => 4,
            ValType::ExternRef => 4,
        }
    }
}

/// The bit pattern of a 32-bit float.
#[derive(Debug, Clone, Copy, PartialEq, Eq, Hash, Structural)]
pub struct F32Bits(pub u32);

/// The bit pattern of a 64-bit float.
#[derive(Debug, Clone, Copy, PartialEq, Eq, Hash, Structural)]
pub struct F64Bits(pub u64);

/// A 128-bit SIMD value.
#[derive(Debug, Clone, Copy, PartialEq, Eq, Hash, Structural)]
pub struct V128(u128);

impl View for V128 {
    type V = u128;

    /// The 128 bits of the value.
    closed spec fn view(&self) -> u128 {
        self.0
    }
}

impl V128 {
    /// The value with the given bits.
    pub closed spec fn spec_from_bits(v: u128) -> V128 {
        V128(v)
    }

    pub proof fn lemma_bits(v: u128, x: V128)
        ensures
            Self::spec_from_bits(v)@ == v,
            Self::spec_from_bits(x@) == x,
    {
    }

    pub fn from_le_bytes(bs: [u8; 16]) -> (r: Self)
        ensures
            r@ as nat == le_value(bs@),
    {
        let v = read_le(&bs);
        V128(v)
    }

    pub fn to_le_bytes(self) -> (r: [u8; 16])
        ensures
            r@ == le_encode(self@ as nat, 16),
    {
        let bytes = write_le(self.0, 16);
        proof {
            lemma_le_encode_len(self.0 as nat, 16);
        }
        let mut out = [0u8; 16];
        let mut i: usize = 0;
        while i < 16
            invariant
                i <= 16,
                bytes@.len() == 16,
                forall|j: int| 0 <= j < i ==> out@[j] == bytes@[j],
            decreases 16 - i,
        {
            out[i] = bytes[i];
            i = i + 1;
        }
        assert(out@ =~= bytes@);
        out
    }

    pub fn from_bits(v: u128) -> (r: Self)
        ensures
            r@ == v,
    {
        V128(v)
    }

    pub fn bits(&self) -> (r: u128)
        ensures
            r == self@,
    {
        self.0
    }
}

/// A reference to a function; the word `u32::MAX` stands for the null reference.
#[derive(Debug, Clone, Copy, PartialEq, Eq, Hash, Structural)]
pub struct FuncRef(u32);

/// A reference to a host object; the word `u32::MAX` stands for the null reference.
#[derive(Debug, Clone, Copy, PartialEq, Eq, Hash, Structural)]
pub struct ExternRef(u32);

/// What a 4-byte reference word refers to: nothing for the null word, else the word itself.
pub open spec fn ref_target(word: u32) -> Option<u32> {
    if word == u32::MAX {
        None
    } else {
        Some(word)
    }
}

impl View for FuncRef {
    type V = u32;

    /// The 4-byte word that stores this reference.
    closed spec fn view(&self) -> u32 {
        self.0
    }
}

impl FuncRef {
    /// The reference stored in the given word.
    pub closed spec fn spec_from_word(w: u32) -> FuncRef {
        FuncRef(w)
    }

    pub proof fn lemma_word(w: u32, x: FuncRef)
        ensures
            Self::spec_from_word(w)@ == w,
            Self::spec_from_word(x@) == x,
    {
    }

    pub open spec fn spec_as_u32(self) -> Option<u32> {
        ref_target(self@)
    }

    pub fn from_le_bytes(bs: [u8; 4]) -> (r: Self)
        ensures
            r@ as nat == le_value(bs@),
    {
        proof {
            lemma_le_value_bound(bs@);
            crate::le_bytes::lemma_pow256_4();
        }
        let v = read_le(&bs);
        FuncRef(v as u32)
    }

    pub fn to_le_bytes(self) -> (r: [u8; 4])
        ensures
            r@ == le_encode(self@ as nat, 4),
    {
        let bytes = write_le(self.0 as u128, 4);
        proof {
            lemma_le_encode_len(self.0 as nat, 4);
        }
        [bytes[0], bytes[1], bytes[2], bytes[3]]
    }

    pub fn none() -> (r: Self)
        ensures
            r.spec_as_u32() is None,
    {
        FuncRef(u32::MAX)
    }

    /// The reference stored in the given word.
    pub fn from_word(w: u32) -> (r: Self)
        ensures
            r == Self::spec_from_word(w),
    {
        FuncRef(w)
    }

    /// The word that stores this reference.
    pub fn word(&self) -> (r: u32)
        ensures
            r == self@,
    {
        self.0
    }

    pub fn as_u32(&self) -> (r: Option<u32>)
        ensures
            r == self.spec_as_u32(),
    {
        if self.0 == u32::MAX {
            None
        } else {
            Some(self.0)
        }
    }

    pub fn is_null(&self) -> (r: bool)
        ensures
            r == self.spec_as_u32() is None,
    {
        self.0 == u32::MAX
    }

    pub fn is_not_null(&self) -> (r: bool)
        ensures
            r == self.spec_as_u32() is Some,
    {
        self.0 != u32::MAX
    }
}

impl View for ExternRef {
    type V = u32;

    /// The 4-byte word that stores this reference.
    closed spec fn view(&self) -> u32 {
        self.0
    }
}

impl ExternRef {
    /// The reference stored in the given word.
    pub closed spec fn spec_from_word(w: u32) -> ExternRef {
        ExternRef(w)
    }

    pub proof fn lemma_word(w: u32, x: ExternRef)
        ensures
            Self::spec_from_word(w)@ == w,
            Self::spec_from_word(x@) == x,
    {
    }

    pub open spec fn spec_as_u32(self) -> Option<u32> {
        ref_target(self@)
    }

    pub fn from_le_bytes(bs: [u8; 4]) -> (r: Self)
        ensures
            r@ as nat == le_value(bs@),
    {
        proof {
            lemma_le_value_bound(bs@);
            crate::le_bytes::lemma_pow256_4();
        }
        let v = read_le(&bs);
        ExternRef(v as u32)
    }

    pub fn to_le_bytes(self) -> (r: [u8; 4])
        ensures
            r@ == le_encode(self@ as nat, 4),
    {
        let bytes = write_le(self.0 as u128, 4);
        proof {
            lemma_le_encode_len(self.0 as nat, 4);
        }
        [bytes[0], bytes[1], bytes[2], bytes[3]]
    }

    pub fn none() -> (r: Self)
        ensures
            r.spec_as_u32() is None,
    {
        ExternRef(u32::MAX)
    }

    /// The reference stored in the given word.
    pub fn from_word(w: u32) -> (r: Self)
        ensures
            r == Self::spec_from_word(w),
    {
        ExternRef(w)
    }

    /// The word that stores this reference.
    pub fn word(&self) -> (r: u32)
        ensures
            r == self@,
    {
        self.0
    }

    pub fn as_u32(&self) -> (r: Option<u32>)
        ensures
            r == self.spec_as_u32(),
    {
        if self.0 == u32::MAX {
            None
        } else {
            Some(self.0)
        }
    }

    pub fn is_null(&self) -> (r: bool)
        ensures
            r == self.spec_as_u32() is None,
    {
        self.0 == u32::MAX
    }

    pub fn is_not_null(&self) -> (r: bool)
        ensures
            r == self.spec_as_u32() is Some,
    {
        self.0 != u32::MAX
    }
}

/// A WebAssembly value. Floats are carried as their bit patterns.
#[derive(Debug, Clone, Copy)]
pub enum Val {
    I32(i32),
    I64(i64),
    F32(F32Bits),
    F64(F64Bits),
    V128(V128),
    FuncRef(FuncRef),
    ExternRef(ExternRef),
}

/// Whether a 32-bit float bit pattern is a NaN: all exponent bits set and a mantissa.
pub open spec fn f32_bits_is_nan(a: u32) -> bool {
    a & 0x7f80_0000 == 0x7f80_0000 && a & 0x007f_ffff != 0
}

/// Whether a 64-bit float bit pattern is a NaN: all exponent bits set and a mantissa.
pub open spec fn f64_bits_is_nan(a: u64) -> bool {
    a & 0x7ff0_0000_0000_0000 == 0x7ff0_0000_0000_0000 && a & 0x000f_ffff_ffff_ffff != 0
}

/// Whether two 32-bit floats, by their bits, are equal as floats: a NaN equals nothing, and
/// the two zeros are equal.
pub open spec fn f32_bits_eq(a: u32, b: u32) -> bool {
    &&& !f32_bits_is_nan(a)
    &&& !f32_bits_is_nan(b)
    &&& (a == b || (a & 0x7fff_ffff == 0 && b & 0x7fff_ffff == 0))
}

/// Whether two 64-bit floats, by their bits, are equal as floats: a NaN equals nothing, and
/// the two zeros are equal.
pub open spec fn f64_bits_eq(a: u64, b: u64) -> bool {
    &&& !f64_bits_is_nan(a)
    &&& !f64_bits_is_nan(b)
    &&& (a == b || (a & 0x7fff_ffff_ffff_ffff == 0 && b & 0x7fff_ffff_ffff_ffff == 0))
}

/// Whether two values are equal: of the same type, floats compared as floats, others by value.
pub open spec fn spec_val_eq(a: Val, b: Val) -> bool {
    match (a, b) {
        (Val::I32(x), Val::I32(y)) => x == y,
        (Val::I64(x), Val::I64(y)) => x == y,
        (Val::F32(x), Val::F32(y)) => f32_bits_eq(x.0, y.0),
        (Val::F64(x), Val::F64(y)) => f64_bits_eq(x.0, y.0),
        (Val::V128(x), Val::V128(y)) => x == y,
        (Val::FuncRef(x), Val::FuncRef(y)) => x == y,
        (Val::ExternRef(x), Val::ExternRef(y)) => x == y,
        _ => false,
    }
}

fn f32_bits_equal(a: u32, b: u32) -> (r: bool)
    ensures
        r == f32_bits_eq(a, b),
{
    let a_nan = a & 0x7f80_0000 == 0x7f80_0000 && a & 0x007f_ffff != 0;
    let b_nan = b & 0x7f80_0000 == 0x7f80_0000 && b & 0x007f_ffff != 0;
    !a_nan && !b_nan && (a == b || (a & 0x7fff_ffff == 0 && b & 0x7fff_ffff == 0))
}

fn f64_bits_equal(a: u64, b: u64) -> (r: bool)
    ensures
        r == f64_bits_eq(a, b),
{
    let a_nan = a & 0x7ff0_0000_0000_0000 == 0x7ff0_0000_0000_0000 && a & 0x000f_ffff_ffff_ffff
        != 0;
    let b_nan = b & 0x7ff0_0000_0000_0000 == 0x7ff0_0000_0000_0000 && b & 0x000f_ffff_ffff_ffff
        != 0;
    !a_nan && !b_nan && (a == b || (a & 0x7fff_ffff_ffff_ffff == 0 && b & 0x7fff_ffff_ffff_ffff
        == 0))
}

impl PartialEq for Val {
    fn eq(&self, other: &Self) -> (r: bool) {
        match (self, other) {
            (Val::I32(x), Val::I32(y)) => *x == *y,
            (Val::I64(x), Val::I64(y)) => *x == *y,
            (Val::F32(x), Val::F32(y)) => f32_bits_equal(x.0, y.0),
            (Val::F64(x), Val::F64(y)) => f64_bits_equal(x.0, y.0),
            (Val::V128(x), Val::V128(y)) => *x == *y,
            (Val::FuncRef(x), Val::FuncRef(y)) => *x == *y,
            (Val::ExternRef(x), Val::ExternRef(y)) => *x == *y,
            _ => false,
        }
    }
}

impl PartialEqSpecImpl for Val {
    open spec fn obeys_eq_spec() -> bool {
        true
    }

    open spec fn eq_spec(&self, other: &Val) -> bool {
        spec_val_eq(*self, *other)
    }
}

proof fn lemma_signed_casts(a: i32, b: u32, c: i64, d: u64)
    ensures
        (a as u32) as i32 == a,
        (b as i32) as u32 == b,
        (c as u64) as i64 == c,
        (d as i64) as u64 == d,
{
    assert((a as u32) as i32 == a) by (bit_vector);
    assert((b as i32) as u32 == b) by (bit_vector);
    assert((c as u64) as i64 == c) by (bit_vector);
    assert((d as i64) as u64 == d) by (bit_vector);
}

impl Val {
    pub open spec fn spec_get_type(self) -> ValType {
        match self {
            Val::I32(_) => ValType::I32,
            Val::I64(_) => ValType::I64,
            Val::F32(_) => ValType::F32,
            Val::F64(_) => ValType::F64,
            Val::V128(_) => ValType::V128,
            Val::FuncRef(_) => ValType::FuncRef,
            Val::ExternRef(_) => ValType::ExternRef,
        }
    }

    /// The unsigned number whose little-endian bytes represent this value.
    pub open spec fn spec_word(self) -> nat {
        match self {
            Val::I32(v) => (v as u32) as nat,
            Val::I64(v) => (v as u64) as nat,
            Val::F32(b) => b.0 as nat,
            Val::F64(b) => b.0 as nat,
            Val::V128(v) => v@ as nat,
            Val::FuncRef(r) => r@ as nat,
            Val::ExternRef(r) => r@ as nat,
        }
    }

    /// The little-endian binary representation of this value.
    pub open spec fn spec_to_bytes(self) -> Seq<u8> {
        le_encode(self.spec_word(), self.spec_get_type().spec_byte_count() as nat)
    }

    /// The value of type `ty` represented by the unsigned number `w`.
    pub open spec fn spec_from_word(ty: ValType, w: nat) -> Val {
        match ty {
            ValType::I32 => Val::I32((w as u32) as i32),
            ValType::I64 => Val::I64((w as u64) as i64),
            ValType::F32 => Val::F32(F32Bits(w as u32)),
            ValType::F64 => Val::F64(F64Bits(w as u64)),
            ValType::V128 => Val::V128(V128::spec_from_bits(w as u128)),
            ValType::FuncRef => Val::FuncRef(FuncRef::spec_from_word(w as u32)),
            ValType::ExternRef => Val::ExternRef(ExternRef::spec_from_word(w as u32)),
        }
    }

    /// The value of type `ty` whose little-endian representation is `s`.
    pub open spec fn spec_from_bytes(ty: ValType, s: Seq<u8>) -> Val {
        Self::spec_from_word(ty, le_value(s))
    }

    pub proof fn lemma_word_bound(self)
        ensures
            self.spec_word() < pow256(self.spec_get_type().spec_byte_count() as nat),
    {
        crate::le_bytes::lemma_pow256_4();
        crate::le_bytes::lemma_pow256_8();
        crate::le_bytes::lemma_pow256_16();
    }

    pub proof fn lemma_from_own_word(self)
        ensures
            Self::spec_from_word(self.spec_get_type(), self.spec_word()) == self,
    {
        match self {
            Val::I32(v) => lemma_signed_casts(v, 0, 0, 0),
            Val::I64(v) => lemma_signed_casts(0, 0, v, 0),
            Val::V128(v) => V128::lemma_bits(0, v),
            Val::FuncRef(r) => FuncRef::lemma_word(0, r),
            Val::ExternRef(r) => ExternRef::lemma_word(0, r),
            _ => {},
        }
    }

    pub proof fn lemma_word_of_from_word(ty: ValType, w: nat)
        requires
            w < pow256(ty.spec_byte_count() as nat),
        ensures
            Self::spec_from_word(ty, w).spec_get_type() == ty,
            Self::spec_from_word(ty, w).spec_word() == w,
    {
        crate::le_bytes::lemma_pow256_4();
        crate::le_bytes::lemma_pow256_8();
        crate::le_bytes::lemma_pow256_16();
        match ty {
            ValType::I32 => lemma_signed_casts(0, w as u32, 0, 0),
            ValType::I64 => lemma_signed_casts(0, 0, 0, w as u64),
            ValType::V128 => V128::lemma_bits(w as u128, V128::spec_from_bits(0)),
            ValType::FuncRef => FuncRef::lemma_word(w as u32, FuncRef::spec_from_word(0)),
            ValType::ExternRef => ExternRef::lemma_word(w as u32, ExternRef::spec_from_word(0)),
            _ => {},
        }
    }

    pub fn get_type(&self) -> (r: ValType)
        ensures
            r == self.spec_get_type(),
    {
        match self {
            Val::I32(_) => ValType::I32,
            Val::I64(_) => ValType::I64,
            Val::F32(_) => ValType::F32,
            Val::F64(_) => ValType::F64,
            Val::V128(_) => ValType::V128,
            Val::FuncRef(_) => ValType::FuncRef,
            Val::ExternRef(_) => ValType::ExternRef,
        }
    }

    pub fn to_bytes(&self) -> (r: Vec<u8>)
        ensures
            r@ == self.spec_to_bytes(),
    {
        match self {
            Val::I32(v) => write_le((*v as u32) as u128, 4),
            Val::I64(v) => write_le((*v as u64) as u128, 8),
            Val::F32(b) => write_le(b.0 as u128, 4),
            Val::F64(b) => write_le(b.0 as u128, 8),
            Val::V128(v) => write_le(v.bits(), 16),
            Val::FuncRef(r) => write_le(r.word() as u128, 4),
            Val::ExternRef(r) => write_le(r.word() as u128, 4),
        }
    }

    /// Checks that the types and the binary representation of two values are the same.
    pub fn bitwise_eq(&self, other: &Self) -> (r: bool)
        ensures
            r == (self.spec_get_type() == other.spec_get_type() && self.spec_to_bytes()
                == other.spec_to_bytes()),
    {
        self.get_type() == other.get_type() && same_bytes(&self.to_bytes(), &other.to_bytes())
    }

    /// Decodes a value of type `ty` from exactly its byte count of bytes.
    fn decode(ty: ValType, bs: &[u8]) -> (r: Val)
        requires
            bs@.len() == ty.spec_byte_count(),
        ensures
            r == Self::spec_from_bytes(ty, bs@),
    {
        let w = read_le(bs);
        match ty {
            ValType::I32 => Val::I32((w as u32) as i32),
            ValType::I64 => Val::I64((w as u64) as i64),
            ValType::F32 => Val::F32(F32Bits(w as u32)),
            ValType::F64 => Val::F64(F64Bits(w as u64)),
            ValType::V128 => Val::V128(V128::from_bits(w)),
            ValType::FuncRef => Val::FuncRef(FuncRef::from_word(w as u32)),
            ValType::ExternRef => Val::ExternRef(ExternRef::from_word(w as u32)),
        }
    }
}

/// Compares two byte buffers.
fn same_bytes(a: &Vec<u8>, b: &Vec<u8>) -> (r: bool)
    ensures
        r == (a@ == b@),
{
    if a.len() != b.len() {
        return false;
    }
    let mut i: usize = 0;
    while i < a.len()
        invariant
            i <= a.len(),
            a.len() == b.len(),
            forall|j: int| 0 <= j < i ==> a@[j] == b@[j],
        decreases a.len() - i,
    {
        if a[i] != b[i] {
            return false;
        }
        i = i + 1;
    }
    assert(a@ =~= b@);
    true
}

/// Two values agree bitwise exactly when they are the same value.
pub proof fn law_bitwise_eq_is_equality(a: Val, b: Val)
    ensures
        (a.spec_get_type() == b.spec_get_type() && a.spec_to_bytes() == b.spec_to_bytes()) <==> a
            == b,
{
    if a.spec_get_type() == b.spec_get_type() && a.spec_to_bytes() == b.spec_to_bytes() {
        law_decode_encode(a);
        law_decode_encode(b);
    }
}

/// Decoding the bytes of a value, at its own type, gives back the value.
pub proof fn law_decode_encode(v: Val)
    ensures
        Val::spec_from_bytes(v.spec_get_type(), v.spec_to_bytes()) == v,
        v.spec_to_bytes().len() == v.spec_get_type().spec_byte_count(),
{
    v.lemma_word_bound();
    lemma_le_value_of_encode(v.spec_word(), v.spec_get_type().spec_byte_count() as nat);
    lemma_le_encode_len(v.spec_word(), v.spec_get_type().spec_byte_count() as nat);
    v.lemma_from_own_word();
}

/// Encoding a value decoded from a full-length buffer gives back the buffer.
pub proof fn law_encode_decode(ty: ValType, s: Seq<u8>)
    requires
        s.len() == ty.spec_byte_count(),
    ensures
        Val::spec_from_bytes(ty, s).spec_get_type() == ty,
        Val::spec_from_bytes(ty, s).spec_to_bytes() == s,
{
    lemma_le_value_bound(s);
    Val::lemma_word_of_from_word(ty, le_value(s));
    lemma_le_encode_of_value(s);
}


/// A value could not be coerced into the requested type.
#[derive(Debug)]
pub struct WasmTyValCoercionError {
    source: Val,
    target: ValType,
}

impl WasmTyValCoercionError {
    pub closed spec fn spec_source(self) -> Val {
        self.source
    }

    pub closed spec fn spec_target(self) -> ValType {
        self.target
    }

    pub fn source(&self) -> (r: Val)
        ensures
            r == self.spec_source(),
    {
        self.source
    }

    pub fn target(&self) -> (r: ValType)
        ensures
            r == self.spec_target(),
    {
        self.target
    }
}

/// Bytes could not be parsed into the requested type.
#[derive(Debug)]
pub struct WasmTyValParseError {
    source: Vec<u8>,
    target: ValType,
}

impl WasmTyValParseError {
    pub closed spec fn spec_source(self) -> Seq<u8> {
        self.source@
    }

    pub closed spec fn spec_target(self) -> ValType {
        self.target
    }

    pub fn source(&self) -> (r: &Vec<u8>)
        ensures
            r@ == self.spec_source(),
    {
        &self.source
    }

    pub fn target(&self) -> (r: ValType)
        ensures
            r == self.spec_target(),
    {
        self.target
    }

    fn new(bs: &[u8], target: ValType) -> (r: Self)
        ensures
            r.spec_source() == bs@,
            r.spec_target() == target,
    {
        WasmTyValParseError { source: slice_to_vec(bs), target }
    }
}

/// Byte counts and parsing for value-type descriptions.
pub trait ValTypeByteCount: SealedValType {
    fn byte_count(&self) -> u8;

    fn try_from_bytes(&self, bs: &[u8]) -> Result<Val, WasmTyValParseError>;
}

impl ValTypeByteCount for ValType {
    fn byte_count(&self) -> (r: u8)
        ensures
            r == self.spec_byte_count(),
    {
        self.size_in_bytes()
    }

    fn try_from_bytes(&self, bs: &[u8]) -> (r: Result<Val, WasmTyValParseError>)
        ensures
            r is Ok <==> bs@.len() == self.spec_byte_count(),
            r matches Ok(v) ==> v == Val::spec_from_bytes(*self, bs@),
            r matches Err(e) ==> e.spec_source() == bs@ && e.spec_target() == *self,
    {
        match self {
            ValType::I32 => match <i32 as WasmTyVal>::try_from_bytes(bs) {
                Ok(v) => Ok(Val::I32(v)),
                Err(e) => Err(e),
            },
            ValType::I64 => match <i64 as WasmTyVal>::try_from_bytes(bs) {
                Ok(v) => Ok(Val::I64(v)),
                Err(e) => Err(e),
            },
            ValType::F32 => match <F32Bits as WasmTyVal>::try_from_bytes(bs) {
                Ok(v) => Ok(Val::F32(v)),
                Err(e) => Err(e),
            },
            ValType::F64 => match <F64Bits as WasmTyVal>::try_from_bytes(bs) {
                Ok(v) => Ok(Val::F64(v)),
                Err(e) => Err(e),
            },
            ValType::V128 => match <V128 as WasmTyVal>::try_from_bytes(bs) {
                Ok(v) => Ok(Val::V128(v)),
                Err(e) => Err(e),
            },
            ValType::FuncRef => match <FuncRef as WasmTyVal>::try_from_bytes(bs) {
                Ok(v) => Ok(Val::FuncRef(v)),
                Err(e) => Err(e),
            },
            ValType::ExternRef => match <ExternRef as WasmTyVal>::try_from_bytes(bs) {
                Ok(v) => Ok(Val::ExternRef(v)),
                Err(e) => Err(e),
            },
        }
    }
}

/// A host type that stands for one WebAssembly value type.
pub trait WasmTyVal: Sized {
    /// The WebAssembly type of the values of this host type.
    spec fn spec_val_type() -> ValType;

    /// The WebAssembly value that a host value stands for.
    spec fn spec_to_val(self) -> Val;

    proof fn lemma_to_val(self)
        ensures
            self.spec_to_val().spec_get_type() == Self::spec_val_type(),
            forall|other: Self| #[trigger] other.spec_to_val() == self.spec_to_val() ==> other
                == self,
    ;

    fn val_type() -> (r: ValType)
        ensures
            r == Self::spec_val_type(),
    ;

    fn try_from_val(v: Val) -> (r: Result<Self, WasmTyValCoercionError>)
        ensures
            r is Ok <==> v.spec_get_type() == Self::spec_val_type(),
            r matches Ok(x) ==> x.spec_to_val() == v,
            r matches Err(e) ==> e.spec_source() == v && e.spec_target() == Self::spec_val_type(),
    ;

    fn to_val(&self) -> (r: Val)
        ensures
            r == self.spec_to_val(),
    ;

    fn try_from_bytes(bs: &[u8]) -> (r: Result<Self, WasmTyValParseError>)
        ensures
            r is Ok <==> bs@.len() == Self::spec_val_type().spec_byte_count(),
            r matches Ok(x) ==> x.spec_to_val() == Val::spec_from_bytes(
                Self::spec_val_type(),
                bs@,
            ),
            r matches Err(e) ==> e.spec_source() == bs@ && e.spec_target()
                == Self::spec_val_type(),
    ;

    fn to_bytes(&self) -> (r: Vec<u8>)
        ensures
            r@ == self.spec_to_val().spec_to_bytes(),
    ;

    fn byte_count() -> (r: u8)
        ensures
            r == Self::spec_val_type().spec_byte_count(),
    {
        Self::val_type().size_in_bytes()
    }
}

impl WasmTyVal for i32 {
    open spec fn spec_val_type() -> ValType {
        ValType::I32
    }

    open spec fn spec_to_val(self) -> Val {
        Val::I32(self)
    }

    proof fn lemma_to_val(self) {
    }

    fn val_type() -> (r: ValType) {
        ValType::I32
    }

    fn try_from_val(v: Val) -> (r: Result<Self, WasmTyValCoercionError>) {
        if let Val::I32(i) = v {
            return Ok(i);
        }
        Err(WasmTyValCoercionError { source: v, target: ValType::I32 })
    }

    fn to_val(&self) -> (r: Val) {
        Val::I32(*self)
    }

    fn try_from_bytes(bs: &[u8]) -> (r: Result<Self, WasmTyValParseError>) {
        if bs.len() != 4 {
            return Err(WasmTyValParseError::new(bs, ValType::I32));
        }
        let w = read_le(bs);
        Ok((w as u32) as i32)
    }

    fn to_bytes(&self) -> (r: Vec<u8>) {
        write_le((*self as u32) as u128, 4)
    }
}

impl WasmTyVal for i64 {
    open spec fn spec_val_type() -> ValType {
        ValType::I64
    }

    open spec fn spec_to_val(self) -> Val {
        Val::I64(self)
    }

    proof fn lemma_to_val(self) {
    }

    fn val_type() -> (r: ValType) {
        ValType::I64
    }

    fn try_from_val(v: Val) -> (r: Result<Self, WasmTyValCoercionError>) {
        if let Val::I64(i) = v {
            return Ok(i);
        }
        Err(WasmTyValCoercionError { source: v, target: ValType::I64 })
    }

    fn to_val(&self) -> (r: Val) {
        Val::I64(*self)
    }

    fn try_from_bytes(bs: &[u8]) -> (r: Result<Self, WasmTyValParseError>) {
        if bs.len() != 8 {
            return Err(WasmTyValParseError::new(bs, ValType::I64));
        }
        let w = read_le(bs);
        Ok((w as u64) as i64)
    }

    fn to_bytes(&self) -> (r: Vec<u8>) {
        write_le((*self as u64) as u128, 8)
    }
}

impl WasmTyVal for F32Bits {
    open spec fn spec_val_type() -> ValType {
        ValType::F32
    }

    open spec fn spec_to_val(self) -> Val {
        Val::F32(self)
    }

    proof fn lemma_to_val(self) {
    }

    fn val_type() -> (r: ValType) {
        ValType::F32
    }

    fn try_from_val(v: Val) -> (r: Result<Self, WasmTyValCoercionError>) {
        if let Val::F32(i) = v {
            return Ok(i);
        }
        Err(WasmTyValCoercionError { source: v, target: ValType::F32 })
    }

    fn to_val(&self) -> (r: Val) {
        Val::F32(*self)
    }

    fn try_from_bytes(bs: &[u8]) -> (r: Result<Self, WasmTyValParseError>) {
        if bs.len() != 4 {
            return Err(WasmTyValParseError::new(bs, ValType::F32));
        }
        let w = read_le(bs);
        Ok(F32Bits(w as u32))
    }

    fn to_bytes(&self) -> (r: Vec<u8>) {
        write_le(self.0 as u128, 4)
    }
}

impl WasmTyVal for F64Bits {
    open spec fn spec_val_type() -> ValType {
        ValType::F64
    }

    open spec fn spec_to_val(self) -> Val {
        Val::F64(self)
    }

    proof fn lemma_to_val(self) {
    }

    fn val_type() -> (r: ValType) {
        ValType::F64
    }

    fn try_from_val(v: Val) -> (r: Result<Self, WasmTyValCoercionError>) {
        if let Val::F64(i) = v {
            return Ok(i);
        }
        Err(WasmTyValCoercionError { source: v, target: ValType::F64 })
    }

    fn to_val(&self) -> (r: Val) {
        Val::F64(*self)
    }

    fn try_from_bytes(bs: &[u8]) -> (r: Result<Self, WasmTyValParseError>) {
        if bs.len() != 8 {
            return Err(WasmTyValParseError::new(bs, ValType::F64));
        }
        let w = read_le(bs);
        Ok(F64Bits(w as u64))
    }

    fn to_bytes(&self) -> (r: Vec<u8>) {
        write_le(self.0 as u128, 8)
    }
}

impl WasmTyVal for V128 {
    open spec fn spec_val_type() -> ValType {
        ValType::V128
    }

    open spec fn spec_to_val(self) -> Val {
        Val::V128(self)
    }

    proof fn lemma_to_val(self) {
    }

    fn val_type() -> (r: ValType) {
        ValType::V128
    }

    fn try_from_val(v: Val) -> (r: Result<Self, WasmTyValCoercionError>) {
        if let Val::V128(i) = v {
            return Ok(i);
        }
        Err(WasmTyValCoercionError { source: v, target: ValType::V128 })
    }

    fn to_val(&self) -> (r: Val) {
        Val::V128(*self)
    }

    fn try_from_bytes(bs: &[u8]) -> (r: Result<Self, WasmTyValParseError>) {
        if bs.len() != 16 {
            return Err(WasmTyValParseError::new(bs, ValType::V128));
        }
        let w = read_le(bs);
        Ok(V128::from_bits(w))
    }

    fn to_bytes(&self) -> (r: Vec<u8>) {
        write_le(self.bits(), 16)
    }
}

impl WasmTyVal for FuncRef {
    open spec fn spec_val_type() -> ValType {
        ValType::FuncRef
    }

    open spec fn spec_to_val(self) -> Val {
        Val::FuncRef(self)
    }

    proof fn lemma_to_val(self) {
    }

    fn val_type() -> (r: ValType) {
        ValType::FuncRef
    }

    fn try_from_val(v: Val) -> (r: Result<Self, WasmTyValCoercionError>) {
        if let Val::FuncRef(i) = v {
            return Ok(i);
        }
        Err(WasmTyValCoercionError { source: v, target: ValType::FuncRef })
    }

    fn to_val(&self) -> (r: Val) {
        Val::FuncRef(*self)
    }

    fn try_from_bytes(bs: &[u8]) -> (r: Result<Self, WasmTyValParseError>) {
        if bs.len() != 4 {
            return Err(WasmTyValParseError::new(bs, ValType::FuncRef));
        }
        let w = read_le(bs);
        Ok(FuncRef::from_word(w as u32))
    }

    fn to_bytes(&self) -> (r: Vec<u8>) {
        write_le(self.word() as u128, 4)
    }
}

impl WasmTyVal for ExternRef {
    open spec fn spec_val_type() -> ValType {
        ValType::ExternRef
    }

    open spec fn spec_to_val(self) -> Val {
        Val::ExternRef(self)
    }

    proof fn lemma_to_val(self) {
    }

    fn val_type() -> (r: ValType) {
        ValType::ExternRef
    }

    fn try_from_val(v: Val) -> (r: Result<Self, WasmTyValCoercionError>) {
        if let Val::ExternRef(i) = v {
            return Ok(i);
        }
        Err(WasmTyValCoercionError { source: v, target: ValType::ExternRef })
    }

    fn to_val(&self) -> (r: Val) {
        Val::ExternRef(*self)
    }

    fn try_from_bytes(bs: &[u8]) -> (r: Result<Self, WasmTyValParseError>) {
        if bs.len() != 4 {
            return Err(WasmTyValParseError::new(bs, ValType::ExternRef));
        }
        let w = read_le(bs);
        Ok(ExternRef::from_word(w as u32))
    }

    fn to_bytes(&self) -> (r: Vec<u8>) {
        write_le(self.word() as u128, 4)
    }
}


/// The types of a sequence of values.
pub open spec fn types_of(vals: Seq<Val>) -> Seq<ValType> {
    vals.map_values(|v: Val| v.spec_get_type())
}

/// Whether each value has the type at its position.
pub open spec fn vals_have_types(vals: Seq<Val>, tys: Seq<ValType>) -> bool {
    &&& vals.len() == tys.len()
    &&& forall|i: int| 0 <= i < vals.len() ==> #[trigger] vals[i].spec_get_type() == tys[i]
}

/// The number of bytes that values of the given types occupy one after another.
pub open spec fn total_byte_count(tys: Seq<ValType>) -> nat
    decreases tys.len(),
{
    if tys.len() == 0 {
        0
    } else {
        total_byte_count(tys.drop_last()) + tys.last().spec_byte_count() as nat
    }
}

/// The representations of the values, one after another.
pub open spec fn vals_to_bytes(vals: Seq<Val>) -> Seq<u8>
    decreases vals.len(),
{
    if vals.len() == 0 {
        Seq::empty()
    } else {
        vals_to_bytes(vals.drop_last()) + vals.last().spec_to_bytes()
    }
}

/// The values of the given types read one after another from the front of `s`.
pub open spec fn vals_from_bytes(tys: Seq<ValType>, s: Seq<u8>) -> Seq<Val>
    decreases tys.len(),
{
    if tys.len() == 0 {
        Seq::empty()
    } else {
        let start = total_byte_count(tys.drop_last()) as int;
        vals_from_bytes(tys.drop_last(), s).push(
            Val::spec_from_bytes(
                tys.last(),
                s.subrange(start, start + tys.last().spec_byte_count() as int),
            ),
        )
    }
}

pub proof fn lemma_vals_to_bytes_len(vals: Seq<Val>)
    ensures
        vals_to_bytes(vals).len() == total_byte_count(types_of(vals)),
    decreases vals.len(),
{
    if vals.len() > 0 {
        lemma_vals_to_bytes_len(vals.drop_last());
        assert(types_of(vals).drop_last() =~= types_of(vals.drop_last()));
        law_decode_encode(vals.last());
    }
}

/// Values read from the front of a buffer do not depend on the bytes after them.
pub proof fn lemma_vals_from_bytes_prefix(tys: Seq<ValType>, s: Seq<u8>, t: Seq<u8>)
    requires
        total_byte_count(tys) <= s.len(),
        total_byte_count(tys) <= t.len(),
        s.take(total_byte_count(tys) as int) == t.take(total_byte_count(tys) as int),
    ensures
        vals_from_bytes(tys, s) == vals_from_bytes(tys, t),
        vals_from_bytes(tys, s).len() == tys.len(),
    decreases tys.len(),
{
    if tys.len() > 0 {
        let k = total_byte_count(tys.drop_last()) as int;
        let n = total_byte_count(tys) as int;
        assert(s.take(k) =~= s.take(n).take(k));
        assert(t.take(k) =~= t.take(n).take(k));
        lemma_vals_from_bytes_prefix(tys.drop_last(), s, t);
        let b = tys.last().spec_byte_count() as int;
        assert(s.subrange(k, k + b) =~= s.take(n).subrange(k, k + b));
        assert(t.subrange(k, k + b) =~= t.take(n).subrange(k, k + b));
    }
}

/// Reading back the representation of a sequence of values, at their own types, gives back the
/// values.
pub proof fn law_vals_decode_encode(vals: Seq<Val>)
    ensures
        vals_from_bytes(types_of(vals), vals_to_bytes(vals)) == vals,
        vals_to_bytes(vals).len() == total_byte_count(types_of(vals)),
    decreases vals.len(),
{
    lemma_vals_to_bytes_len(vals);
    if vals.len() > 0 {
        let init = vals.drop_last();
        law_vals_decode_encode(init);
        let tys = types_of(vals);
        assert(tys.drop_last() =~= types_of(init));
        let head = vals_to_bytes(init);
        let whole = vals_to_bytes(vals);
        let k = head.len();
        lemma_vals_to_bytes_len(init);
        assert(whole.take(k as int) =~= head.take(k as int));
        lemma_vals_from_bytes_prefix(types_of(init), whole, head);
        law_decode_encode(vals.last());
        let b = vals.last().spec_get_type().spec_byte_count() as int;
        assert(whole.subrange(k as int, k + b) =~= vals.last().spec_to_bytes());
        assert(vals_from_bytes(tys, whole) =~= vals);
    }
}

/// Writes the representations of the values one after another.
pub fn encode_vals(vals: &[Val]) -> (r: Vec<u8>)
    ensures
        r@ == vals_to_bytes(vals@),
{
    let mut out: Vec<u8> = Vec::new();
    let mut i: usize = 0;
    while i < vals.len()
        invariant
            i <= vals@.len(),
            out@ == vals_to_bytes(vals@.take(i as int)),
        decreases vals.len() - i,
    {
        let mut next = vals[i].to_bytes();
        proof {
            assert(vals@.take(i + 1).drop_last() =~= vals@.take(i as int));
        }
        out.append(&mut next);
        i = i + 1;
    }
    proof {
        assert(vals@.take(vals@.len() as int) =~= vals@);
    }
    out
}

/// Reads values of the given types one after another from a buffer that holds exactly them.
pub fn decode_vals(tys: &[ValType], bs: &[u8]) -> (r: Result<Vec<Val>, WasmTyVecParseError>)
    ensures
        r is Ok <==> bs@.len() == total_byte_count(tys@),
        r matches Ok(v) ==> v@ == vals_from_bytes(tys@, bs@),
        r matches Err(e) ==> e.spec_source() == bs@ && e.spec_targets() == tys@,
{
    let mut out: Vec<Val> = Vec::new();
    let mut index: usize = 0;
    let mut i: usize = 0;
    while i < tys.len()
        invariant
            i <= tys@.len(),
            index as nat == total_byte_count(tys@.take(i as int)),
            index <= bs@.len(),
            out@ == vals_from_bytes(tys@.take(i as int), bs@),
        decreases tys.len() - i,
    {
        let ty = tys[i];
        let n = ty.size_in_bytes() as usize;
        proof {
            assert(tys@.take(i + 1).drop_last() =~= tys@.take(i as int));
        }
        if n > bs.len() - index {
            proof {
                lemma_total_byte_count_mono(tys@, i as int + 1);
                assert(tys@.take(tys@.len() as int) =~= tys@);
            }
            return Err(WasmTyVecParseError::new(bs, tys));
        }
        let part = slice_subrange(bs, index, index + n);
        match ty.try_from_bytes(part) {
            Ok(v) => out.push(v),
            Err(_) => {
                return Err(WasmTyVecParseError::new(bs, tys));
            },
        }
        index = index + n;
        i = i + 1;
    }
    proof {
        assert(tys@.take(tys@.len() as int) =~= tys@);
    }
    if index != bs.len() {
        return Err(WasmTyVecParseError::new(bs, tys));
    }
    Ok(out)
}

/// Totals of byte counts grow along the sequence of types.
pub proof fn lemma_total_byte_count_mono(tys: Seq<ValType>, i: int)
    requires
        0 <= i <= tys.len(),
    ensures
        total_byte_count(tys.take(i)) <= total_byte_count(tys),
    decreases tys.len() - i,
{
    if i < tys.len() {
        lemma_total_byte_count_mono(tys, i + 1);
        assert(tys.take(i + 1).drop_last() =~= tys.take(i));
    } else {
        assert(tys.take(i) =~= tys);
    }
}

/// A sequence of values could not be coerced into the requested types.
#[derive(Debug)]
pub struct WasmTyVecCoercionError {
    sources: Vec<Val>,
    targets: Vec<ValType>,
}

impl WasmTyVecCoercionError {
    pub closed spec fn spec_sources(self) -> Seq<Val> {
        self.sources@
    }

    pub closed spec fn spec_targets(self) -> Seq<ValType> {
        self.targets@
    }

    pub fn sources(&self) -> (r: &Vec<Val>)
        ensures
            r@ == self.spec_sources(),
    {
        &self.sources
    }

    pub fn targets(&self) -> (r: &Vec<ValType>)
        ensures
            r@ == self.spec_targets(),
    {
        &self.targets
    }

    fn new(sources: &[Val], targets: &[ValType]) -> (r: Self)
        ensures
            r.spec_sources() == sources@,
            r.spec_targets() == targets@,
    {
        WasmTyVecCoercionError { sources: slice_to_vec(sources), targets: slice_to_vec(targets) }
    }
}

/// Bytes could not be parsed into the requested sequence of types.
#[derive(Debug)]
pub struct WasmTyVecParseError {
    source: Vec<u8>,
    targets: Vec<ValType>,
}

impl WasmTyVecParseError {
    pub closed spec fn spec_source(self) -> Seq<u8> {
        self.source@
    }

    pub closed spec fn spec_targets(self) -> Seq<ValType> {
        self.targets@
    }

    pub fn source(&self) -> (r: &Vec<u8>)
        ensures
            r@ == self.spec_source(),
    {
        &self.source
    }

    pub fn targets(&self) -> (r: &Vec<ValType>)
        ensures
            r@ == self.spec_targets(),
    {
        &self.targets
    }

    fn new(bs: &[u8], targets: &[ValType]) -> (r: Self)
        ensures
            r.spec_source() == bs@,
            r.spec_targets() == targets@,
    {
        WasmTyVecParseError { source: slice_to_vec(bs), targets: slice_to_vec(targets) }
    }
}


proof fn lemma_one_type(ty: ValType, s: Seq<u8>, v: Val)
    ensures
        total_byte_count(seq![ty]) == ty.spec_byte_count(),
        vals_from_bytes(seq![ty], s) == seq![
            Val::spec_from_bytes(ty, s.subrange(0, ty.spec_byte_count() as int)),
        ],
        vals_to_bytes(seq![v]) == v.spec_to_bytes(),
{
    let tys = seq![ty];
    assert(tys.drop_last() =~= Seq::<ValType>::empty());
    assert(seq![v].drop_last() =~= Seq::<Val>::empty());
    reveal_with_fuel(total_byte_count, 2);
    reveal_with_fuel(vals_from_bytes, 2);
    reveal_with_fuel(vals_to_bytes, 2);
    assert(vals_from_bytes(tys, s) =~= seq![
        Val::spec_from_bytes(ty, s.subrange(0, ty.spec_byte_count() as int)),
    ]);
    assert(vals_to_bytes(seq![v]) =~= v.spec_to_bytes());
}

proof fn lemma_two_types(t1: ValType, t2: ValType, s: Seq<u8>, v1: Val, v2: Val)
    ensures
        total_byte_count(seq![t1, t2]) == t1.spec_byte_count() + t2.spec_byte_count(),
        vals_from_bytes(seq![t1, t2], s) == seq![
            Val::spec_from_bytes(t1, s.subrange(0, t1.spec_byte_count() as int)),
            Val::spec_from_bytes(
                t2,
                s.subrange(
                    t1.spec_byte_count() as int,
                    t1.spec_byte_count() + t2.spec_byte_count(),
                ),
            ),
        ],
        vals_to_bytes(seq![v1, v2]) == v1.spec_to_bytes() + v2.spec_to_bytes(),
{
    let tys = seq![t1, t2];
    assert(tys.drop_last() =~= seq![t1]);
    assert(seq![v1, v2].drop_last() =~= seq![v1]);
    lemma_one_type(t1, s, v1);
    reveal_with_fuel(total_byte_count, 2);
    reveal_with_fuel(vals_from_bytes, 2);
    reveal_with_fuel(vals_to_bytes, 2);
    assert(vals_from_bytes(tys, s) =~= seq![
        Val::spec_from_bytes(t1, s.subrange(0, t1.spec_byte_count() as int)),
        Val::spec_from_bytes(
            t2,
            s.subrange(t1.spec_byte_count() as int, t1.spec_byte_count() + t2.spec_byte_count()),
        ),
    ]);
}

/// A host type that stands for a sequence of WebAssembly values, such as the parameters or the
/// results of a function.
pub trait WasmTyVec: Sized {
    /// The WebAssembly types of the sequence.
    spec fn spec_val_types() -> Seq<ValType>;

    /// The WebAssembly values that a host value stands for.
    spec fn spec_to_vals(self) -> Seq<Val>;

    proof fn lemma_to_vals(self)
        ensures
            vals_have_types(self.spec_to_vals(), Self::spec_val_types()),
    ;

    fn val_types() -> (r: Vec<ValType>)
        ensures
            r@ == Self::spec_val_types(),
    ;

    fn try_from_val_vec(v: &Vec<Val>) -> (r: Result<Self, WasmTyVecCoercionError>)
        ensures
            r is Ok <==> vals_have_types(v@, Self::spec_val_types()),
            r matches Ok(x) ==> x.spec_to_vals() == v@,
            r matches Err(e) ==> e.spec_sources() == v@ && e.spec_targets()
                == Self::spec_val_types(),
    ;

    fn to_val_vec(&self) -> (r: Vec<Val>)
        ensures
            r@ == self.spec_to_vals(),
    ;

    fn try_from_bytes(bs: &[u8]) -> (r: Result<Self, WasmTyVecParseError>)
        ensures
            r is Ok <==> bs@.len() == total_byte_count(Self::spec_val_types()),
            r matches Ok(x) ==> x.spec_to_vals() == vals_from_bytes(Self::spec_val_types(), bs@),
            r matches Err(e) ==> e.spec_source() == bs@ && e.spec_targets()
                == Self::spec_val_types(),
    ;

    fn to_bytes(&self) -> (r: Vec<u8>)
        ensures
            r@ == vals_to_bytes(self.spec_to_vals()),
    ;

    fn byte_count() -> (r: usize)
        requires
            total_byte_count(Self::spec_val_types()) <= usize::MAX,
        ensures
            r == total_byte_count(Self::spec_val_types()),
    {
        let tys = Self::val_types();
        let mut sum: usize = 0;
        let mut i: usize = 0;
        while i < tys.len()
            invariant
                i <= tys@.len(),
                tys@ == Self::spec_val_types(),
                total_byte_count(tys@) <= usize::MAX,
                sum == total_byte_count(tys@.take(i as int)),
            decreases tys.len() - i,
        {
            proof {
                assert(tys@.take(i + 1).drop_last() =~= tys@.take(i as int));
                lemma_total_byte_count_mono(tys@, i + 1);
            }
            sum = sum + tys[i].size_in_bytes() as usize;
            i = i + 1;
        }
        proof {
            assert(tys@.take(tys@.len() as int) =~= tys@);
        }
        sum
    }
}

impl WasmTyVec for () {
    open spec fn spec_val_types() -> Seq<ValType> {
        Seq::empty()
    }

    open spec fn spec_to_vals(self) -> Seq<Val> {
        Seq::empty()
    }

    proof fn lemma_to_vals(self) {
    }

    fn val_types() -> (r: Vec<ValType>) {
        Vec::new()
    }

    fn try_from_val_vec(v: &Vec<Val>) -> (r: Result<Self, WasmTyVecCoercionError>) {
        if v.len() == 0 {
            return Ok(());
        }
        let targets: Vec<ValType> = Vec::new();
        Err(WasmTyVecCoercionError::new(v.as_slice(), targets.as_slice()))
    }

    fn to_val_vec(&self) -> (r: Vec<Val>) {
        Vec::new()
    }

    fn try_from_bytes(bs: &[u8]) -> (r: Result<Self, WasmTyVecParseError>) {
        if bs.len() == 0 {
            return Ok(());
        }
        let targets: Vec<ValType> = Vec::new();
        Err(WasmTyVecParseError::new(bs, targets.as_slice()))
    }

    fn to_bytes(&self) -> (r: Vec<u8>) {
        Vec::new()
    }
}

impl<T: WasmTyVal> WasmTyVec for T {
    open spec fn spec_val_types() -> Seq<ValType> {
        seq![T::spec_val_type()]
    }

    open spec fn spec_to_vals(self) -> Seq<Val> {
        seq![self.spec_to_val()]
    }

    proof fn lemma_to_vals(self) {
        self.lemma_to_val();
    }

    fn val_types() -> (r: Vec<ValType>) {
        let mut v = Vec::new();
        v.push(T::val_type());
        proof {
            assert(v@ =~= seq![T::spec_val_type()]);
        }
        v
    }

    fn try_from_val_vec(v: &Vec<Val>) -> (r: Result<Self, WasmTyVecCoercionError>) {
        if v.len() == 1 {
            if let Ok(x) = T::try_from_val(v[0]) {
                proof {
                    assert(seq![x.spec_to_val()] =~= v@);
                }
                return Ok(x);
            }
        }
        let targets = Self::val_types();
        Err(WasmTyVecCoercionError::new(v.as_slice(), targets.as_slice()))
    }

    fn to_val_vec(&self) -> (r: Vec<Val>) {
        let mut v = Vec::new();
        v.push(self.to_val());
        proof {
            assert(v@ =~= seq![self.spec_to_val()]);
        }
        v
    }

    fn try_from_bytes(bs: &[u8]) -> (r: Result<Self, WasmTyVecParseError>) {
        proof {
            lemma_one_type(T::spec_val_type(), bs@, Val::I32(0));
            assert(bs@.subrange(0, bs@.len() as int) =~= bs@);
        }
        match T::try_from_bytes(bs) {
            Ok(x) => Ok(x),
            Err(_) => {
                let targets = Self::val_types();
                Err(WasmTyVecParseError::new(bs, targets.as_slice()))
            },
        }
    }

    fn to_bytes(&self) -> (r: Vec<u8>) {
        proof {
            lemma_one_type(T::spec_val_type(), Seq::empty(), self.spec_to_val());
        }
        <Self as WasmTyVal>::to_bytes(self)
    }
}

impl<A1: WasmTyVal, A2: WasmTyVal> WasmTyVec for (A1, A2) {
    open spec fn spec_val_types() -> Seq<ValType> {
        seq![A1::spec_val_type(), A2::spec_val_type()]
    }

    open spec fn spec_to_vals(self) -> Seq<Val> {
        seq![self.0.spec_to_val(), self.1.spec_to_val()]
    }

    proof fn lemma_to_vals(self) {
        self.0.lemma_to_val();
        self.1.lemma_to_val();
    }

    fn val_types() -> (r: Vec<ValType>) {
        let mut v = Vec::new();
        v.push(A1::val_type());
        v.push(A2::val_type());
        proof {
            assert(v@ =~= seq![A1::spec_val_type(), A2::spec_val_type()]);
        }
        v
    }

    fn try_from_val_vec(v: &Vec<Val>) -> (r: Result<Self, WasmTyVecCoercionError>) {
        let targets = Self::val_types();
        if v.len() == 2 {
            let a1 = A1::try_from_val(v[0]);
            let a2 = A2::try_from_val(v[1]);
            if let (Ok(a1), Ok(a2)) = (a1, a2) {
                proof {
                    assert(seq![a1.spec_to_val(), a2.spec_to_val()] =~= v@);
                }
                return Ok((a1, a2));
            }
            proof {
                if vals_have_types(v@, Self::spec_val_types()) {
                    assert(v@[0].spec_get_type() == A1::spec_val_type());
                    assert(v@[1].spec_get_type() == A2::spec_val_type());
                }
            }
        }
        Err(WasmTyVecCoercionError::new(v.as_slice(), targets.as_slice()))
    }

    fn to_val_vec(&self) -> (r: Vec<Val>) {
        let mut v = Vec::new();
        v.push(self.0.to_val());
        v.push(self.1.to_val());
        proof {
            assert(v@ =~= seq![self.0.spec_to_val(), self.1.spec_to_val()]);
        }
        v
    }

    fn try_from_bytes(bs: &[u8]) -> (r: Result<Self, WasmTyVecParseError>) {
        let targets = Self::val_types();
        let n1 = A1::byte_count() as usize;
        let n2 = A2::byte_count() as usize;
        let ghost tys = seq![A1::spec_val_type(), A2::spec_val_type()];
        proof {
            lemma_two_types(A1::spec_val_type(), A2::spec_val_type(), bs@, Val::I32(0), Val::I32(0));
        }
        if n1 > bs.len() || n2 > bs.len() - n1 || n1 + n2 != bs.len() {
            return Err(WasmTyVecParseError::new(bs, targets.as_slice()));
        }
        let first = A1::try_from_bytes(slice_subrange(bs, 0, n1));
        let second = A2::try_from_bytes(slice_subrange(bs, n1, n1 + n2));
        match (first, second) {
            (Ok(a1), Ok(a2)) => {
                proof {
                    assert(vals_from_bytes(tys, bs@) =~= seq![a1.spec_to_val(), a2.spec_to_val()]);
                }
                Ok((a1, a2))
            },
            _ => Err(WasmTyVecParseError::new(bs, targets.as_slice())),
        }
    }

    fn to_bytes(&self) -> (r: Vec<u8>) {
        let mut res = Vec::new();
        let mut next_bytes = <A1 as WasmTyVal>::to_bytes(&self.0);
        res.append(&mut next_bytes);
        let mut next_bytes = <A2 as WasmTyVal>::to_bytes(&self.1);
        res.append(&mut next_bytes);
        proof {
            lemma_two_types(
                A1::spec_val_type(),
                A2::spec_val_type(),
                Seq::empty(),
                self.0.spec_to_val(),
                self.1.spec_to_val(),
            );
        }
        res
    }
}


/// Reading back the bytes of a host value of a sequence type gives its values back, and the
/// bytes have the length that reading expects: what a caller writes is what the callee reads.
pub proof fn law_ty_vec_round_trip<T: WasmTyVec>(x: T)
    ensures
        vals_from_bytes(T::spec_val_types(), vals_to_bytes(x.spec_to_vals())) == x.spec_to_vals(),
        vals_to_bytes(x.spec_to_vals()).len() == total_byte_count(T::spec_val_types()),
{
    x.lemma_to_vals();
    law_vals_decode_encode(x.spec_to_vals());
    assert(types_of(x.spec_to_vals()) =~= T::spec_val_types());
}

/// Values read from bytes have the types they were read at.
proof fn lemma_vals_from_bytes_types(tys: Seq<ValType>, s: Seq<u8>)
    ensures
        vals_have_types(vals_from_bytes(tys, s), tys),
    decreases tys.len(),
{
    if tys.len() > 0 {
        lemma_vals_from_bytes_types(tys.drop_last(), s);
    }
}

impl<A1: WasmTyVal> WasmTyVec for (A1,) {
    open spec fn spec_val_types() -> Seq<ValType> {
        seq![A1::spec_val_type()]
    }

    open spec fn spec_to_vals(self) -> Seq<Val> {
        seq![self.0.spec_to_val()]
    }

    proof fn lemma_to_vals(self) {
        self.0.lemma_to_val();
        assert(vals_have_types(self.spec_to_vals(), Self::spec_val_types()));
    }

    fn val_types() -> (r: Vec<ValType>) {
        let v = vec![A1::val_type()];
        proof {
            assert(v@ =~= Self::spec_val_types());
        }
        v
    }

    fn try_from_val_vec(v: &Vec<Val>) -> (r: Result<Self, WasmTyVecCoercionError>) {
        let targets = Self::val_types();
        if v.len() == 1 {
            let a1 = A1::try_from_val(v[0]);
            if let (Ok(a1),) = (a1,) {
                proof {
                    assert(seq![a1.spec_to_val()] =~= v@);
                }
                return Ok((a1,));
            }
            proof {
                if vals_have_types(v@, Self::spec_val_types()) {
                    assert(v@[0].spec_get_type() == A1::spec_val_type());
                }
            }
        }
        Err(WasmTyVecCoercionError::new(v.as_slice(), targets.as_slice()))
    }

    fn to_val_vec(&self) -> (r: Vec<Val>) {
        let mut v = Vec::new();
        v.push(self.0.to_val());
        proof {
            assert(v@ =~= self.spec_to_vals());
        }
        v
    }

    fn try_from_bytes(bs: &[u8]) -> (r: Result<Self, WasmTyVecParseError>) {
        let targets = Self::val_types();
        let vals = match decode_vals(targets.as_slice(), bs) {
            Ok(vals) => vals,
            Err(e) => {
                return Err(e);
            },
        };
        proof {
            lemma_vals_from_bytes_types(targets@, bs@);
        }
        let a1 = A1::try_from_val(vals[0]);
        if let (Ok(a1),) = (a1,) {
            proof {
                assert(seq![a1.spec_to_val()] =~= vals@);
            }
            return Ok((a1,));
        }
        proof {
            assert(vals@[0].spec_get_type() == A1::spec_val_type());
        }
        Err(WasmTyVecParseError::new(bs, targets.as_slice()))
    }

    fn to_bytes(&self) -> (r: Vec<u8>) {
        let vals = self.to_val_vec();
        encode_vals(vals.as_slice())
    }
}

impl<A1: WasmTyVal, A2: WasmTyVal, A3: WasmTyVal> WasmTyVec for (A1, A2, A3) {
    open spec fn spec_val_types() -> Seq<ValType> {
        seq![A1::spec_val_type(), A2::spec_val_type(), A3::spec_val_type()]
    }

    open spec fn spec_to_vals(self) -> Seq<Val> {
        seq![self.0.spec_to_val(), self.1.spec_to_val(), self.2.spec_to_val()]
    }

    proof fn lemma_to_vals(self) {
        self.0.lemma_to_val();
        self.1.lemma_to_val();
        self.2.lemma_to_val();
        assert(vals_have_types(self.spec_to_vals(), Self::spec_val_types()));
    }

    fn val_types() -> (r: Vec<ValType>) {
        let v = vec![A1::val_type(), A2::val_type(), A3::val_type()];
        proof {
            assert(v@ =~= Self::spec_val_types());
        }
        v
    }

    fn try_from_val_vec(v: &Vec<Val>) -> (r: Result<Self, WasmTyVecCoercionError>) {
        let targets = Self::val_types();
        if v.len() == 3 {
            let a1 = A1::try_from_val(v[0]);
            let a2 = A2::try_from_val(v[1]);
            let a3 = A3::try_from_val(v[2]);
            if let (Ok(a1), Ok(a2), Ok(a3)) = (a1, a2, a3) {
                proof {
                    assert(seq![a1.spec_to_val(), a2.spec_to_val(), a3.spec_to_val()] =~= v@);
                }
                return Ok((a1, a2, a3));
            }
            proof {
                if vals_have_types(v@, Self::spec_val_types()) {
                    assert(v@[0].spec_get_type() == A1::spec_val_type());
                    assert(v@[1].spec_get_type() == A2::spec_val_type());
                    assert(v@[2].spec_get_type() == A3::spec_val_type());
                }
            }
        }
        Err(WasmTyVecCoercionError::new(v.as_slice(), targets.as_slice()))
    }

    fn to_val_vec(&self) -> (r: Vec<Val>) {
        let mut v = Vec::new();
        v.push(self.0.to_val());
        v.push(self.1.to_val());
        v.push(self.2.to_val());
        proof {
            assert(v@ =~= self.spec_to_vals());
        }
        v
    }

    fn try_from_bytes(bs: &[u8]) -> (r: Result<Self, WasmTyVecParseError>) {
        let targets = Self::val_types();
        let vals = match decode_vals(targets.as_slice(), bs) {
            Ok(vals) => vals,
            Err(e) => {
                return Err(e);
            },
        };
        proof {
            lemma_vals_from_bytes_types(targets@, bs@);
        }
        let a1 = A1::try_from_val(vals[0]);
        let a2 = A2::try_from_val(vals[1]);
        let a3 = A3::try_from_val(vals[2]);
        if let (Ok(a1), Ok(a2), Ok(a3)) = (a1, a2, a3) {
            proof {
                assert(seq![a1.spec_to_val(), a2.spec_to_val(), a3.spec_to_val()] =~= vals@);
            }
            return Ok((a1, a2, a3));
        }
        proof {
            assert(vals@[0].spec_get_type() == A1::spec_val_type());
            assert(vals@[1].spec_get_type() == A2::spec_val_type());
            assert(vals@[2].spec_get_type() == A3::spec_val_type());
        }
        Err(WasmTyVecParseError::new(bs, targets.as_slice()))
    }

    fn to_bytes(&self) -> (r: Vec<u8>) {
        let vals = self.to_val_vec();
        encode_vals(vals.as_slice())
    }
}

impl<A1: WasmTyVal, A2: WasmTyVal, A3: WasmTyVal, A4: WasmTyVal> WasmTyVec for (A1, A2, A3, A4) {
    open spec fn spec_val_types() -> Seq<ValType> {
        seq![A1::spec_val_type(), A2::spec_val_type(), A3::spec_val_type(), A4::spec_val_type()]
    }

    open spec fn spec_to_vals(self) -> Seq<Val> {
        seq![self.0.spec_to_val(), self.1.spec_to_val(), self.2.spec_to_val(), self.3.spec_to_val()]
    }

    proof fn lemma_to_vals(self) {
        self.0.lemma_to_val();
        self.1.lemma_to_val();
        self.2.lemma_to_val();
        self.3.lemma_to_val();
        assert(vals_have_types(self.spec_to_vals(), Self::spec_val_types()));
    }

    fn val_types() -> (r: Vec<ValType>) {
        let v = vec![A1::val_type(), A2::val_type(), A3::val_type(), A4::val_type()];
        proof {
            assert(v@ =~= Self::spec_val_types());
        }
        v
    }

    fn try_from_val_vec(v: &Vec<Val>) -> (r: Result<Self, WasmTyVecCoercionError>) {
        let targets = Self::val_types();
        if v.len() == 4 {
            let a1 = A1::try_from_val(v[0]);
            let a2 = A2::try_from_val(v[1]);
            let a3 = A3::try_from_val(v[2]);
            let a4 = A4::try_from_val(v[3]);
            if let (Ok(a1), Ok(a2), Ok(a3), Ok(a4)) = (a1, a2, a3, a4) {
                proof {
                    assert(seq![a1.spec_to_val(), a2.spec_to_val(), a3.spec_to_val(), a4.spec_to_val()] =~= v@);
                }
                return Ok((a1, a2, a3, a4));
            }
            proof {
                if vals_have_types(v@, Self::spec_val_types()) {
                    assert(v@[0].spec_get_type() == A1::spec_val_type());
                    assert(v@[1].spec_get_type() == A2::spec_val_type());
                    assert(v@[2].spec_get_type() == A3::spec_val_type());
                    assert(v@[3].spec_get_type() == A4::spec_val_type());
                }
            }
        }
        Err(WasmTyVecCoercionError::new(v.as_slice(), targets.as_slice()))
    }

    fn to_val_vec(&self) -> (r: Vec<Val>) {
        let mut v = Vec::new();
        v.push(self.0.to_val());
        v.push(self.1.to_val());
        v.push(self.2.to_val());
        v.push(self.3.to_val());
        proof {
            assert(v@ =~= self.spec_to_vals());
        }
        v
    }

    fn try_from_bytes(bs: &[u8]) -> (r: Result<Self, WasmTyVecParseError>) {
        let targets = Self::val_types();
        let vals = match decode_vals(targets.as_slice(), bs) {
            Ok(vals) => vals,
            Err(e) => {
                return Err(e);
            },
        };
        proof {
            lemma_vals_from_bytes_types(targets@, bs@);
        }
        let a1 = A1::try_from_val(vals[0]);
        let a2 = A2::try_from_val(vals[1]);
        let a3 = A3::try_from_val(vals[2]);
        let a4 = A4::try_from_val(vals[3]);
        if let (Ok(a1), Ok(a2), Ok(a3), Ok(a4)) = (a1, a2, a3, a4) {
            proof {
                assert(seq![a1.spec_to_val(), a2.spec_to_val(), a3.spec_to_val(), a4.spec_to_val()] =~= vals@);
            }
            return Ok((a1, a2, a3, a4));
        }
        proof {
            assert(vals@[0].spec_get_type() == A1::spec_val_type());
            assert(vals@[1].spec_get_type() == A2::spec_val_type());
            assert(vals@[2].spec_get_type() == A3::spec_val_type());
            assert(vals@[3].spec_get_type() == A4::spec_val_type());
        }
        Err(WasmTyVecParseError::new(bs, targets.as_slice()))
    }

    fn to_bytes(&self) -> (r: Vec<u8>) {
        let vals = self.to_val_vec();
        encode_vals(vals.as_slice())
    }
}

impl<A1: WasmTyVal, A2: WasmTyVal, A3: WasmTyVal, A4: WasmTyVal, A5: WasmTyVal> WasmTyVec for (A1, A2, A3, A4, A5) {
    open spec fn spec_val_types() -> Seq<ValType> {
        seq![A1::spec_val_type(), A2::spec_val_type(), A3::spec_val_type(), A4::spec_val_type(), A5::spec_val_type()]
    }

    open spec fn spec_to_vals(self) -> Seq<Val> {
        seq![self.0.spec_to_val(), self.1.spec_to_val(), self.2.spec_to_val(), self.3.spec_to_val(), self.4.spec_to_val()]
    }

    proof fn lemma_to_vals(self) {
        self.0.lemma_to_val();
        self.1.lemma_to_val();
        self.2.lemma_to_val();
        self.3.lemma_to_val();
        self.4.lemma_to_val();
        assert(vals_have_types(self.spec_to_vals(), Self::spec_val_types()));
    }

    fn val_types() -> (r: Vec<ValType>) {
        let v = vec![A1::val_type(), A2::val_type(), A3::val_type(), A4::val_type(), A5::val_type()];
        proof {
            assert(v@ =~= Self::spec_val_types());
        }
        v
    }

    fn try_from_val_vec(v: &Vec<Val>) -> (r: Result<Self, WasmTyVecCoercionError>) {
        let targets = Self::val_types();
        if v.len() == 5 {
            let a1 = A1::try_from_val(v[0]);
            let a2 = A2::try_from_val(v[1]);
            let a3 = A3::try_from_val(v[2]);
            let a4 = A4::try_from_val(v[3]);
            let a5 = A5::try_from_val(v[4]);
            if let (Ok(a1), Ok(a2), Ok(a3), Ok(a4), Ok(a5)) = (a1, a2, a3, a4, a5) {
                proof {
                    assert(seq![a1.spec_to_val(), a2.spec_to_val(), a3.spec_to_val(), a4.spec_to_val(), a5.spec_to_val()] =~= v@);
                }
                return Ok((a1, a2, a3, a4, a5));
            }
            proof {
                if vals_have_types(v@, Self::spec_val_types()) {
                    assert(v@[0].spec_get_type() == A1::spec_val_type());
                    assert(v@[1].spec_get_type() == A2::spec_val_type());
                    assert(v@[2].spec_get_type() == A3::spec_val_type());
                    assert(v@[3].spec_get_type() == A4::spec_val_type());
                    assert(v@[4].spec_get_type() == A5::spec_val_type());
                }
            }
        }
        Err(WasmTyVecCoercionError::new(v.as_slice(), targets.as_slice()))
    }

    fn to_val_vec(&self) -> (r: Vec<Val>) {
        let mut v = Vec::new();
        v.push(self.0.to_val());
        v.push(self.1.to_val());
        v.push(self.2.to_val());
        v.push(self.3.to_val());
        v.push(self.4.to_val());
        proof {
            assert(v@ =~= self.spec_to_vals());
        }
        v
    }

    fn try_from_bytes(bs: &[u8]) -> (r: Result<Self, WasmTyVecParseError>) {
        let targets = Self::val_types();
        let vals = match decode_vals(targets.as_slice(), bs) {
            Ok(vals) => vals,
            Err(e) => {
                return Err(e);
            },
        };
        proof {
            lemma_vals_from_bytes_types(targets@, bs@);
        }
        let a1 = A1::try_from_val(vals[0]);
        let a2 = A2::try_from_val(vals[1]);
        let a3 = A3::try_from_val(vals[2]);
        let a4 = A4::try_from_val(vals[3]);
        let a5 = A5::try_from_val(vals[4]);
        if let (Ok(a1), Ok(a2), Ok(a3), Ok(a4), Ok(a5)) = (a1, a2, a3, a4, a5) {
            proof {
                assert(seq![a1.spec_to_val(), a2.spec_to_val(), a3.spec_to_val(), a4.spec_to_val(), a5.spec_to_val()] =~= vals@);
            }
            return Ok((a1, a2, a3, a4, a5));
        }
        proof {
            assert(vals@[0].spec_get_type() == A1::spec_val_type());
            assert(vals@[1].spec_get_type() == A2::spec_val_type());
            assert(vals@[2].spec_get_type() == A3::spec_val_type());
            assert(vals@[3].spec_get_type() == A4::spec_val_type());
            assert(vals@[4].spec_get_type() == A5::spec_val_type());
        }
        Err(WasmTyVecParseError::new(bs, targets.as_slice()))
    }

    fn to_bytes(&self) -> (r: Vec<u8>) {
        let vals = self.to_val_vec();
        encode_vals(vals.as_slice())
    }
}

impl<A1: WasmTyVal, A2: WasmTyVal, A3: WasmTyVal, A4: WasmTyVal, A5: WasmTyVal, A6: WasmTyVal> WasmTyVec for (A1, A2, A3, A4, A5, A6) {
    open spec fn spec_val_types() -> Seq<ValType> {
        seq![A1::spec_val_type(), A2::spec_val_type(), A3::spec_val_type(), A4::spec_val_type(), A5::spec_val_type(), A6::spec_val_type()]
    }

    open spec fn spec_to_vals(self) -> Seq<Val> {
        seq![self.0.spec_to_val(), self.1.spec_to_val(), self.2.spec_to_val(), self.3.spec_to_val(), self.4.spec_to_val(), self.5.spec_to_val()]
    }

    proof fn lemma_to_vals(self) {
        self.0.lemma_to_val();
        self.1.lemma_to_val();
        self.2.lemma_to_val();
        self.3.lemma_to_val();
        self.4.lemma_to_val();
        self.5.lemma_to_val();
        assert(vals_have_types(self.spec_to_vals(), Self::spec_val_types()));
    }

    fn val_types() -> (r: Vec<ValType>) {
        let v = vec![A1::val_type(), A2::val_type(), A3::val_type(), A4::val_type(), A5::val_type(), A6::val_type()];
        proof {
            assert(v@ =~= Self::spec_val_types());
        }
        v
    }

    fn try_from_val_vec(v: &Vec<Val>) -> (r: Result<Self, WasmTyVecCoercionError>) {
        let targets = Self::val_types();
        if v.len() == 6 {
            let a1 = A1::try_from_val(v[0]);
            let a2 = A2::try_from_val(v[1]);
            let a3 = A3::try_from_val(v[2]);
            let a4 = A4::try_from_val(v[3]);
            let a5 = A5::try_from_val(v[4]);
            let a6 = A6::try_from_val(v[5]);
            if let (Ok(a1), Ok(a2), Ok(a3), Ok(a4), Ok(a5), Ok(a6)) = (a1, a2, a3, a4, a5, a6) {
                proof {
                    assert(seq![a1.spec_to_val(), a2.spec_to_val(), a3.spec_to_val(), a4.spec_to_val(), a5.spec_to_val(), a6.spec_to_val()] =~= v@);
                }
                return Ok((a1, a2, a3, a4, a5, a6));
            }
            proof {
                if vals_have_types(v@, Self::spec_val_types()) {
                    assert(v@[0].spec_get_type() == A1::spec_val_type());
                    assert(v@[1].spec_get_type() == A2::spec_val_type());
                    assert(v@[2].spec_get_type() == A3::spec_val_type());
                    assert(v@[3].spec_get_type() == A4::spec_val_type());
                    assert(v@[4].spec_get_type() == A5::spec_val_type());
                    assert(v@[5].spec_get_type() == A6::spec_val_type());
                }
            }
        }
        Err(WasmTyVecCoercionError::new(v.as_slice(), targets.as_slice()))
    }

    fn to_val_vec(&self) -> (r: Vec<Val>) {
        let mut v = Vec::new();
        v.push(self.0.to_val());
        v.push(self.1.to_val());
        v.push(self.2.to_val());
        v.push(self.3.to_val());
        v.push(self.4.to_val());
        v.push(self.5.to_val());
        proof {
            assert(v@ =~= self.spec_to_vals());
        }
        v
    }

    fn try_from_bytes(bs: &[u8]) -> (r: Result<Self, WasmTyVecParseError>) {
        let targets = Self::val_types();
        let vals = match decode_vals(targets.as_slice(), bs) {
            Ok(vals) => vals,
            Err(e) => {
                return Err(e);
            },
        };
        proof {
            lemma_vals_from_bytes_types(targets@, bs@);
        }
        let a1 = A1::try_from_val(vals[0]);
        let a2 = A2::try_from_val(vals[1]);
        let a3 = A3::try_from_val(vals[2]);
        let a4 = A4::try_from_val(vals[3]);
        let a5 = A5::try_from_val(vals[4]);
        let a6 = A6::try_from_val(vals[5]);
        if let (Ok(a1), Ok(a2), Ok(a3), Ok(a4), Ok(a5), Ok(a6)) = (a1, a2, a3, a4, a5, a6) {
            proof {
                assert(seq![a1.spec_to_val(), a2.spec_to_val(), a3.spec_to_val(), a4.spec_to_val(), a5.spec_to_val(), a6.spec_to_val()] =~= vals@);
            }
            return Ok((a1, a2, a3, a4, a5, a6));
        }
        proof {
            assert(vals@[0].spec_get_type() == A1::spec_val_type());
            assert(vals@[1].spec_get_type() == A2::spec_val_type());
            assert(vals@[2].spec_get_type() == A3::spec_val_type());
            assert(vals@[3].spec_get_type() == A4::spec_val_type());
            assert(vals@[4].spec_get_type() == A5::spec_val_type());
            assert(vals@[5].spec_get_type() == A6::spec_val_type());
        }
        Err(WasmTyVecParseError::new(bs, targets.as_slice()))
    }

    fn to_bytes(&self) -> (r: Vec<u8>) {
        let vals = self.to_val_vec();
        encode_vals(vals.as_slice())
    }
}

impl<A1: WasmTyVal, A2: WasmTyVal, A3: WasmTyVal, A4: WasmTyVal, A5: WasmTyVal, A6: WasmTyVal, A7: WasmTyVal> WasmTyVec for (A1, A2, A3, A4, A5, A6, A7) {
    open spec fn spec_val_types() -> Seq<ValType> {
        seq![A1::spec_val_type(), A2::spec_val_type(), A3::spec_val_type(), A4::spec_val_type(), A5::spec_val_type(), A6::spec_val_type(), A7::spec_val_type()]
    }

    open spec fn spec_to_vals(self) -> Seq<Val> {
        seq![self.0.spec_to_val(), self.1.spec_to_val(), self.2.spec_to_val(), self.3.spec_to_val(), self.4.spec_to_val(), self.5.spec_to_val(), self.6.spec_to_val()]
    }

    proof fn lemma_to_vals(self) {
        self.0.lemma_to_val();
        self.1.lemma_to_val();
        self.2.lemma_to_val();
        self.3.lemma_to_val();
        self.4.lemma_to_val();
        self.5.lemma_to_val();
        self.6.lemma_to_val();
        assert(vals_have_types(self.spec_to_vals(), Self::spec_val_types()));
    }

    fn val_types() -> (r: Vec<ValType>) {
        let v = vec![A1::val_type(), A2::val_type(), A3::val_type(), A4::val_type(), A5::val_type(), A6::val_type(), A7::val_type()];
        proof {
            assert(v@ =~= Self::spec_val_types());
        }
        v
    }

    fn try_from_val_vec(v: &Vec<Val>) -> (r: Result<Self, WasmTyVecCoercionError>) {
        let targets = Self::val_types();
        if v.len() == 7 {
            let a1 = A1::try_from_val(v[0]);
            let a2 = A2::try_from_val(v[1]);
            let a3 = A3::try_from_val(v[2]);
            let a4 = A4::try_from_val(v[3]);
            let a5 = A5::try_from_val(v[4]);
            let a6 = A6::try_from_val(v[5]);
            let a7 = A7::try_from_val(v[6]);
            if let (Ok(a1), Ok(a2), Ok(a3), Ok(a4), Ok(a5), Ok(a6), Ok(a7)) = (a1, a2, a3, a4, a5, a6, a7) {
                proof {
                    assert(seq![a1.spec_to_val(), a2.spec_to_val(), a3.spec_to_val(), a4.spec_to_val(), a5.spec_to_val(), a6.spec_to_val(), a7.spec_to_val()] =~= v@);
                }
                return Ok((a1, a2, a3, a4, a5, a6, a7));
            }
            proof {
                if vals_have_types(v@, Self::spec_val_types()) {
                    assert(v@[0].spec_get_type() == A1::spec_val_type());
                    assert(v@[1].spec_get_type() == A2::spec_val_type());
                    assert(v@[2].spec_get_type() == A3::spec_val_type());
                    assert(v@[3].spec_get_type() == A4::spec_val_type());
                    assert(v@[4].spec_get_type() == A5::spec_val_type());
                    assert(v@[5].spec_get_type() == A6::spec_val_type());
                    assert(v@[6].spec_get_type() == A7::spec_val_type());
                }
            }
        }
        Err(WasmTyVecCoercionError::new(v.as_slice(), targets.as_slice()))
    }

    fn to_val_vec(&self) -> (r: Vec<Val>) {
        let mut v = Vec::new();
        v.push(self.0.to_val());
        v.push(self.1.to_val());
        v.push(self.2.to_val());
        v.push(self.3.to_val());
        v.push(self.4.to_val());
        v.push(self.5.to_val());
        v.push(self.6.to_val());
        proof {
            assert(v@ =~= self.spec_to_vals());
        }
        v
    }

    fn try_from_bytes(bs: &[u8]) -> (r: Result<Self, WasmTyVecParseError>) {
        let targets = Self::val_types();
        let vals = match decode_vals(targets.as_slice(), bs) {
            Ok(vals) => vals,
            Err(e) => {
                return Err(e);
            },
        };
        proof {
            lemma_vals_from_bytes_types(targets@, bs@);
        }
        let a1 = A1::try_from_val(vals[0]);
        let a2 = A2::try_from_val(vals[1]);
        let a3 = A3::try_from_val(vals[2]);
        let a4 = A4::try_from_val(vals[3]);
        let a5 = A5::try_from_val(vals[4]);
        let a6 = A6::try_from_val(vals[5]);
        let a7 = A7::try_from_val(vals[6]);
        if let (Ok(a1), Ok(a2), Ok(a3), Ok(a4), Ok(a5), Ok(a6), Ok(a7)) = (a1, a2, a3, a4, a5, a6, a7) {
            proof {
                assert(seq![a1.spec_to_val(), a2.spec_to_val(), a3.spec_to_val(), a4.spec_to_val(), a5.spec_to_val(), a6.spec_to_val(), a7.spec_to_val()] =~= vals@);
            }
            return Ok((a1, a2, a3, a4, a5, a6, a7));
        }
        proof {
            assert(vals@[0].spec_get_type() == A1::spec_val_type());
            assert(vals@[1].spec_get_type() == A2::spec_val_type());
            assert(vals@[2].spec_get_type() == A3::spec_val_type());
            assert(vals@[3].spec_get_type() == A4::spec_val_type());
            assert(vals@[4].spec_get_type() == A5::spec_val_type());
            assert(vals@[5].spec_get_type() == A6::spec_val_type());
            assert(vals@[6].spec_get_type() == A7::spec_val_type());
        }
        Err(WasmTyVecParseError::new(bs, targets.as_slice()))
    }

    fn to_bytes(&self) -> (r: Vec<u8>) {
        let vals = self.to_val_vec();
        encode_vals(vals.as_slice())
    }
}

impl<A1: WasmTyVal, A2: WasmTyVal, A3: WasmTyVal, A4: WasmTyVal, A5: WasmTyVal, A6: WasmTyVal, A7: WasmTyVal, A8: WasmTyVal> WasmTyVec for (A1, A2, A3, A4, A5, A6, A7, A8) {
    open spec fn spec_val_types() -> Seq<ValType> {
        seq![A1::spec_val_type(), A2::spec_val_type(), A3::spec_val_type(), A4::spec_val_type(), A5::spec_val_type(), A6::spec_val_type(), A7::spec_val_type(), A8::spec_val_type()]
    }

    open spec fn spec_to_vals(self) -> Seq<Val> {
        seq![self.0.spec_to_val(), self.1.spec_to_val(), self.2.spec_to_val(), self.3.spec_to_val(), self.4.spec_to_val(), self.5.spec_to_val(), self.6.spec_to_val(), self.7.spec_to_val()]
    }

    proof fn lemma_to_vals(self) {
        self.0.lemma_to_val();
        self.1.lemma_to_val();
        self.2.lemma_to_val();
        self.3.lemma_to_val();
        self.4.lemma_to_val();
        self.5.lemma_to_val();
        self.6.lemma_to_val();
        self.7.lemma_to_val();
        assert(vals_have_types(self.spec_to_vals(), Self::spec_val_types()));
    }

    fn val_types() -> (r: Vec<ValType>) {
        let v = vec![A1::val_type(), A2::val_type(), A3::val_type(), A4::val_type(), A5::val_type(), A6::val_type(), A7::val_type(), A8::val_type()];
        proof {
            assert(v@ =~= Self::spec_val_types());
        }
        v
    }

    fn try_from_val_vec(v: &Vec<Val>) -> (r: Result<Self, WasmTyVecCoercionError>) {
        let targets = Self::val_types();
        if v.len() == 8 {
            let a1 = A1::try_from_val(v[0]);
            let a2 = A2::try_from_val(v[1]);
            let a3 = A3::try_from_val(v[2]);
            let a4 = A4::try_from_val(v[3]);
            let a5 = A5::try_from_val(v[4]);
            let a6 = A6::try_from_val(v[5]);
            let a7 = A7::try_from_val(v[6]);
            let a8 = A8::try_from_val(v[7]);
            if let (Ok(a1), Ok(a2), Ok(a3), Ok(a4), Ok(a5), Ok(a6), Ok(a7), Ok(a8)) = (a1, a2, a3, a4, a5, a6, a7, a8) {
                proof {
                    assert(seq![a1.spec_to_val(), a2.spec_to_val(), a3.spec_to_val(), a4.spec_to_val(), a5.spec_to_val(), a6.spec_to_val(), a7.spec_to_val(), a8.spec_to_val()] =~= v@);
                }
                return Ok((a1, a2, a3, a4, a5, a6, a7, a8));
            }
            proof {
                if vals_have_types(v@, Self::spec_val_types()) {
                    assert(v@[0].spec_get_type() == A1::spec_val_type());
                    assert(v@[1].spec_get_type() == A2::spec_val_type());
                    assert(v@[2].spec_get_type() == A3::spec_val_type());
                    assert(v@[3].spec_get_type() == A4::spec_val_type());
                    assert(v@[4].spec_get_type() == A5::spec_val_type());
                    assert(v@[5].spec_get_type() == A6::spec_val_type());
                    assert(v@[6].spec_get_type() == A7::spec_val_type());
                    assert(v@[7].spec_get_type() == A8::spec_val_type());
                }
            }
        }
        Err(WasmTyVecCoercionError::new(v.as_slice(), targets.as_slice()))
    }

    fn to_val_vec(&self) -> (r: Vec<Val>) {
        let mut v = Vec::new();
        v.push(self.0.to_val());
        v.push(self.1.to_val());
        v.push(self.2.to_val());
        v.push(self.3.to_val());
        v.push(self.4.to_val());
        v.push(self.5.to_val());
        v.push(self.6.to_val());
        v.push(self.7.to_val());
        proof {
            assert(v@ =~= self.spec_to_vals());
        }
        v
    }

    fn try_from_bytes(bs: &[u8]) -> (r: Result<Self, WasmTyVecParseError>) {
        let targets = Self::val_types();
        let vals = match decode_vals(targets.as_slice(), bs) {
            Ok(vals) => vals,
            Err(e) => {
                return Err(e);
            },
        };
        proof {
            lemma_vals_from_bytes_types(targets@, bs@);
        }
        let a1 = A1::try_from_val(vals[0]);
        let a2 = A2::try_from_val(vals[1]);
        let a3 = A3::try_from_val(vals[2]);
        let a4 = A4::try_from_val(vals[3]);
        let a5 = A5::try_from_val(vals[4]);
        let a6 = A6::try_from_val(vals[5]);
        let a7 = A7::try_from_val(vals[6]);
        let a8 = A8::try_from_val(vals[7]);
        if let (Ok(a1), Ok(a2), Ok(a3), Ok(a4), Ok(a5), Ok(a6), Ok(a7), Ok(a8)) = (a1, a2, a3, a4, a5, a6, a7, a8) {
            proof {
                assert(seq![a1.spec_to_val(), a2.spec_to_val(), a3.spec_to_val(), a4.spec_to_val(), a5.spec_to_val(), a6.spec_to_val(), a7.spec_to_val(), a8.spec_to_val()] =~= vals@);
            }
            return Ok((a1, a2, a3, a4, a5, a6, a7, a8));
        }
        proof {
            assert(vals@[0].spec_get_type() == A1::spec_val_type());
            assert(vals@[1].spec_get_type() == A2::spec_val_type());
            assert(vals@[2].spec_get_type() == A3::spec_val_type());
            assert(vals@[3].spec_get_type() == A4::spec_val_type());
            assert(vals@[4].spec_get_type() == A5::spec_val_type());
            assert(vals@[5].spec_get_type() == A6::spec_val_type());
            assert(vals@[6].spec_get_type() == A7::spec_val_type());
            assert(vals@[7].spec_get_type() == A8::spec_val_type());
        }
        Err(WasmTyVecParseError::new(bs, targets.as_slice()))
    }

    fn to_bytes(&self) -> (r: Vec<u8>) {
        let vals = self.to_val_vec();
        encode_vals(vals.as_slice())
    }
}

impl<A1: WasmTyVal, A2: WasmTyVal, A3: WasmTyVal, A4: WasmTyVal, A5: WasmTyVal, A6: WasmTyVal, A7: WasmTyVal, A8: WasmTyVal, A9: WasmTyVal> WasmTyVec for (A1, A2, A3, A4, A5, A6, A7, A8, A9) {
    open spec fn spec_val_types() -> Seq<ValType> {
        seq![A1::spec_val_type(), A2::spec_val_type(), A3::spec_val_type(), A4::spec_val_type(), A5::spec_val_type(), A6::spec_val_type(), A7::spec_val_type(), A8::spec_val_type(), A9::spec_val_type()]
    }

    open spec fn spec_to_vals(self) -> Seq<Val> {
        seq![self.0.spec_to_val(), self.1.spec_to_val(), self.2.spec_to_val(), self.3.spec_to_val(), self.4.spec_to_val(), self.5.spec_to_val(), self.6.spec_to_val(), self.7.spec_to_val(), self.8.spec_to_val()]
    }

    proof fn lemma_to_vals(self) {
        self.0.lemma_to_val();
        self.1.lemma_to_val();
        self.2.lemma_to_val();
        self.3.lemma_to_val();
        self.4.lemma_to_val();
        self.5.lemma_to_val();
        self.6.lemma_to_val();
        self.7.lemma_to_val();
        self.8.lemma_to_val();
        assert(vals_have_types(self.spec_to_vals(), Self::spec_val_types()));
    }

    fn val_types() -> (r: Vec<ValType>) {
        let v = vec![A1::val_type(), A2::val_type(), A3::val_type(), A4::val_type(), A5::val_type(), A6::val_type(), A7::val_type(), A8::val_type(), A9::val_type()];
        proof {
            assert(v@ =~= Self::spec_val_types());
        }
        v
    }

    fn try_from_val_vec(v: &Vec<Val>) -> (r: Result<Self, WasmTyVecCoercionError>) {
        let targets = Self::val_types();
        if v.len() == 9 {
            let a1 = A1::try_from_val(v[0]);
            let a2 = A2::try_from_val(v[1]);
            let a3 = A3::try_from_val(v[2]);
            let a4 = A4::try_from_val(v[3]);
            let a5 = A5::try_from_val(v[4]);
            let a6 = A6::try_from_val(v[5]);
            let a7 = A7::try_from_val(v[6]);
            let a8 = A8::try_from_val(v[7]);
            let a9 = A9::try_from_val(v[8]);
            if let (Ok(a1), Ok(a2), Ok(a3), Ok(a4), Ok(a5), Ok(a6), Ok(a7), Ok(a8), Ok(a9)) = (a1, a2, a3, a4, a5, a6, a7, a8, a9) {
                proof {
                    assert(seq![a1.spec_to_val(), a2.spec_to_val(), a3.spec_to_val(), a4.spec_to_val(), a5.spec_to_val(), a6.spec_to_val(), a7.spec_to_val(), a8.spec_to_val(), a9.spec_to_val()] =~= v@);
                }
                return Ok((a1, a2, a3, a4, a5, a6, a7, a8, a9));
            }
            proof {
                if vals_have_types(v@, Self::spec_val_types()) {
                    assert(v@[0].spec_get_type() == A1::spec_val_type());
                    assert(v@[1].spec_get_type() == A2::spec_val_type());
                    assert(v@[2].spec_get_type() == A3::spec_val_type());
                    assert(v@[3].spec_get_type() == A4::spec_val_type());
                    assert(v@[4].spec_get_type() == A5::spec_val_type());
                    assert(v@[5].spec_get_type() == A6::spec_val_type());
                    assert(v@[6].spec_get_type() == A7::spec_val_type());
                    assert(v@[7].spec_get_type() == A8::spec_val_type());
                    assert(v@[8].spec_get_type() == A9::spec_val_type());
                }
            }
        }
        Err(WasmTyVecCoercionError::new(v.as_slice(), targets.as_slice()))
    }

    fn to_val_vec(&self) -> (r: Vec<Val>) {
        let mut v = Vec::new();
        v.push(self.0.to_val());
        v.push(self.1.to_val());
        v.push(self.2.to_val());
        v.push(self.3.to_val());
        v.push(self.4.to_val());
        v.push(self.5.to_val());
        v.push(self.6.to_val());
        v.push(self.7.to_val());
        v.push(self.8.to_val());
        proof {
            assert(v@ =~= self.spec_to_vals());
        }
        v
    }

    fn try_from_bytes(bs: &[u8]) -> (r: Result<Self, WasmTyVecParseError>) {
        let targets = Self::val_types();
        let vals = match decode_vals(targets.as_slice(), bs) {
            Ok(vals) => vals,
            Err(e) => {
                return Err(e);
            },
        };
        proof {
            lemma_vals_from_bytes_types(targets@, bs@);
        }
        let a1 = A1::try_from_val(vals[0]);
        let a2 = A2::try_from_val(vals[1]);
        let a3 = A3::try_from_val(vals[2]);
        let a4 = A4::try_from_val(vals[3]);
        let a5 = A5::try_from_val(vals[4]);
        let a6 = A6::try_from_val(vals[5]);
        let a7 = A7::try_from_val(vals[6]);
        let a8 = A8::try_from_val(vals[7]);
        let a9 = A9::try_from_val(vals[8]);
        if let (Ok(a1), Ok(a2), Ok(a3), Ok(a4), Ok(a5), Ok(a6), Ok(a7), Ok(a8), Ok(a9)) = (a1, a2, a3, a4, a5, a6, a7, a8, a9) {
            proof {
                assert(seq![a1.spec_to_val(), a2.spec_to_val(), a3.spec_to_val(), a4.spec_to_val(), a5.spec_to_val(), a6.spec_to_val(), a7.spec_to_val(), a8.spec_to_val(), a9.spec_to_val()] =~= vals@);
            }
            return Ok((a1, a2, a3, a4, a5, a6, a7, a8, a9));
        }
        proof {
            assert(vals@[0].spec_get_type() == A1::spec_val_type());
            assert(vals@[1].spec_get_type() == A2::spec_val_type());
            assert(vals@[2].spec_get_type() == A3::spec_val_type());
            assert(vals@[3].spec_get_type() == A4::spec_val_type());
            assert(vals@[4].spec_get_type() == A5::spec_val_type());
            assert(vals@[5].spec_get_type() == A6::spec_val_type());
            assert(vals@[6].spec_get_type() == A7::spec_val_type());
            assert(vals@[7].spec_get_type() == A8::spec_val_type());
            assert(vals@[8].spec_get_type() == A9::spec_val_type());
        }
        Err(WasmTyVecParseError::new(bs, targets.as_slice()))
    }

    fn to_bytes(&self) -> (r: Vec<u8>) {
        let vals = self.to_val_vec();
        encode_vals(vals.as_slice())
    }
}

impl<A1: WasmTyVal, A2: WasmTyVal, A3: WasmTyVal, A4: WasmTyVal, A5: WasmTyVal, A6: WasmTyVal, A7: WasmTyVal, A8: WasmTyVal, A9: WasmTyVal, A10: WasmTyVal> WasmTyVec for (A1, A2, A3, A4, A5, A6, A7, A8, A9, A10) {
    open spec fn spec_val_types() -> Seq<ValType> {
        seq![A1::spec_val_type(), A2::spec_val_type(), A3::spec_val_type(), A4::spec_val_type(), A5::spec_val_type(), A6::spec_val_type(), A7::spec_val_type(), A8::spec_val_type(), A9::spec_val_type(), A10::spec_val_type()]
    }

    open spec fn spec_to_vals(self) -> Seq<Val> {
        seq![self.0.spec_to_val(), self.1.spec_to_val(), self.2.spec_to_val(), self.3.spec_to_val(), self.4.spec_to_val(), self.5.spec_to_val(), self.6.spec_to_val(), self.7.spec_to_val(), self.8.spec_to_val(), self.9.spec_to_val()]
    }

    proof fn lemma_to_vals(self) {
        self.0.lemma_to_val();
        self.1.lemma_to_val();
        self.2.lemma_to_val();
        self.3.lemma_to_val();
        self.4.lemma_to_val();
        self.5.lemma_to_val();
        self.6.lemma_to_val();
        self.7.lemma_to_val();
        self.8.lemma_to_val();
        self.9.lemma_to_val();
        assert(vals_have_types(self.spec_to_vals(), Self::spec_val_types()));
    }

    fn val_types() -> (r: Vec<ValType>) {
        let v = vec![A1::val_type(), A2::val_type(), A3::val_type(), A4::val_type(), A5::val_type(), A6::val_type(), A7::val_type(), A8::val_type(), A9::val_type(), A10::val_type()];
        proof {
            assert(v@ =~= Self::spec_val_types());
        }
        v
    }

    fn try_from_val_vec(v: &Vec<Val>) -> (r: Result<Self, WasmTyVecCoercionError>) {
        let targets = Self::val_types();
        if v.len() == 10 {
            let a1 = A1::try_from_val(v[0]);
            let a2 = A2::try_from_val(v[1]);
            let a3 = A3::try_from_val(v[2]);
            let a4 = A4::try_from_val(v[3]);
            let a5 = A5::try_from_val(v[4]);
            let a6 = A6::try_from_val(v[5]);
            let a7 = A7::try_from_val(v[6]);
            let a8 = A8::try_from_val(v[7]);
            let a9 = A9::try_from_val(v[8]);
            let a10 = A10::try_from_val(v[9]);
            if let (Ok(a1), Ok(a2), Ok(a3), Ok(a4), Ok(a5), Ok(a6), Ok(a7), Ok(a8), Ok(a9), Ok(a10)) = (a1, a2, a3, a4, a5, a6, a7, a8, a9, a10) {
                proof {
                    assert(seq![a1.spec_to_val(), a2.spec_to_val(), a3.spec_to_val(), a4.spec_to_val(), a5.spec_to_val(), a6.spec_to_val(), a7.spec_to_val(), a8.spec_to_val(), a9.spec_to_val(), a10.spec_to_val()] =~= v@);
                }
                return Ok((a1, a2, a3, a4, a5, a6, a7, a8, a9, a10));
            }
            proof {
                if vals_have_types(v@, Self::spec_val_types()) {
                    assert(v@[0].spec_get_type() == A1::spec_val_type());
                    assert(v@[1].spec_get_type() == A2::spec_val_type());
                    assert(v@[2].spec_get_type() == A3::spec_val_type());
                    assert(v@[3].spec_get_type() == A4::spec_val_type());
                    assert(v@[4].spec_get_type() == A5::spec_val_type());
                    assert(v@[5].spec_get_type() == A6::spec_val_type());
                    assert(v@[6].spec_get_type() == A7::spec_val_type());
                    assert(v@[7].spec_get_type() == A8::spec_val_type());
                    assert(v@[8].spec_get_type() == A9::spec_val_type());
                    assert(v@[9].spec_get_type() == A10::spec_val_type());
                }
            }
        }
        Err(WasmTyVecCoercionError::new(v.as_slice(), targets.as_slice()))
    }

    fn to_val_vec(&self) -> (r: Vec<Val>) {
        let mut v = Vec::new();
        v.push(self.0.to_val());
        v.push(self.1.to_val());
        v.push(self.2.to_val());
        v.push(self.3.to_val());
        v.push(self.4.to_val());
        v.push(self.5.to_val());
        v.push(self.6.to_val());
        v.push(self.7.to_val());
        v.push(self.8.to_val());
        v.push(self.9.to_val());
        proof {
            assert(v@ =~= self.spec_to_vals());
        }
        v
    }

    fn try_from_bytes(bs: &[u8]) -> (r: Result<Self, WasmTyVecParseError>) {
        let targets = Self::val_types();
        let vals = match decode_vals(targets.as_slice(), bs) {
            Ok(vals) => vals,
            Err(e) => {
                return Err(e);
            },
        };
        proof {
            lemma_vals_from_bytes_types(targets@, bs@);
        }
        let a1 = A1::try_from_val(vals[0]);
        let a2 = A2::try_from_val(vals[1]);
        let a3 = A3::try_from_val(vals[2]);
        let a4 = A4::try_from_val(vals[3]);
        let a5 = A5::try_from_val(vals[4]);
        let a6 = A6::try_from_val(vals[5]);
        let a7 = A7::try_from_val(vals[6]);
        let a8 = A8::try_from_val(vals[7]);
        let a9 = A9::try_from_val(vals[8]);
        let a10 = A10::try_from_val(vals[9]);
        if let (Ok(a1), Ok(a2), Ok(a3), Ok(a4), Ok(a5), Ok(a6), Ok(a7), Ok(a8), Ok(a9), Ok(a10)) = (a1, a2, a3, a4, a5, a6, a7, a8, a9, a10) {
            proof {
                assert(seq![a1.spec_to_val(), a2.spec_to_val(), a3.spec_to_val(), a4.spec_to_val(), a5.spec_to_val(), a6.spec_to_val(), a7.spec_to_val(), a8.spec_to_val(), a9.spec_to_val(), a10.spec_to_val()] =~= vals@);
            }
            return Ok((a1, a2, a3, a4, a5, a6, a7, a8, a9, a10));
        }
        proof {
            assert(vals@[0].spec_get_type() == A1::spec_val_type());
            assert(vals@[1].spec_get_type() == A2::spec_val_type());
            assert(vals@[2].spec_get_type() == A3::spec_val_type());
            assert(vals@[3].spec_get_type() == A4::spec_val_type());
            assert(vals@[4].spec_get_type() == A5::spec_val_type());
            assert(vals@[5].spec_get_type() == A6::spec_val_type());
            assert(vals@[6].spec_get_type() == A7::spec_val_type());
            assert(vals@[7].spec_get_type() == A8::spec_val_type());
            assert(vals@[8].spec_get_type() == A9::spec_val_type());
            assert(vals@[9].spec_get_type() == A10::spec_val_type());
        }
        Err(WasmTyVecParseError::new(bs, targets.as_slice()))
    }

    fn to_bytes(&self) -> (r: Vec<u8>) {
        let vals = self.to_val_vec();
        encode_vals(vals.as_slice())
    }
}

impl<A1: WasmTyVal, A2: WasmTyVal, A3: WasmTyVal, A4: WasmTyVal, A5: WasmTyVal, A6: WasmTyVal, A7: WasmTyVal, A8: WasmTyVal, A9: WasmTyVal, A10: WasmTyVal, A11: WasmTyVal> WasmTyVec for (A1, A2, A3, A4, A5, A6, A7, A8, A9, A10, A11) {
    open spec fn spec_val_types() -> Seq<ValType> {
        seq![A1::spec_val_type(), A2::spec_val_type(), A3::spec_val_type(), A4::spec_val_type(), A5::spec_val_type(), A6::spec_val_type(), A7::spec_val_type(), A8::spec_val_type(), A9::spec_val_type(), A10::spec_val_type(), A11::spec_val_type()]
    }

    open spec fn spec_to_vals(self) -> Seq<Val> {
        seq![self.0.spec_to_val(), self.1.spec_to_val(), self.2.spec_to_val(), self.3.spec_to_val(), self.4.spec_to_val(), self.5.spec_to_val(), self.6.spec_to_val(), self.7.spec_to_val(), self.8.spec_to_val(), self.9.spec_to_val(), self.10.spec_to_val()]
    }

    proof fn lemma_to_vals(self) {
        self.0.lemma_to_val();
        self.1.lemma_to_val();
        self.2.lemma_to_val();
        self.3.lemma_to_val();
        self.4.lemma_to_val();
        self.5.lemma_to_val();
        self.6.lemma_to_val();
        self.7.lemma_to_val();
        self.8.lemma_to_val();
        self.9.lemma_to_val();
        self.10.lemma_to_val();
        assert(vals_have_types(self.spec_to_vals(), Self::spec_val_types()));
    }

    fn val_types() -> (r: Vec<ValType>) {
        let v = vec![A1::val_type(), A2::val_type(), A3::val_type(), A4::val_type(), A5::val_type(), A6::val_type(), A7::val_type(), A8::val_type(), A9::val_type(), A10::val_type(), A11::val_type()];
        proof {
            assert(v@ =~= Self::spec_val_types());
        }
        v
    }

    fn try_from_val_vec(v: &Vec<Val>) -> (r: Result<Self, WasmTyVecCoercionError>) {
        let targets = Self::val_types();
        if v.len() == 11 {
            let a1 = A1::try_from_val(v[0]);
            let a2 = A2::try_from_val(v[1]);
            let a3 = A3::try_from_val(v[2]);
            let a4 = A4::try_from_val(v[3]);
            let a5 = A5::try_from_val(v[4]);
            let a6 = A6::try_from_val(v[5]);
            let a7 = A7::try_from_val(v[6]);
            let a8 = A8::try_from_val(v[7]);
            let a9 = A9::try_from_val(v[8]);
            let a10 = A10::try_from_val(v[9]);
            let a11 = A11::try_from_val(v[10]);
            if let (Ok(a1), Ok(a2), Ok(a3), Ok(a4), Ok(a5), Ok(a6), Ok(a7), Ok(a8), Ok(a9), Ok(a10), Ok(a11)) = (a1, a2, a3, a4, a5, a6, a7, a8, a9, a10, a11) {
                proof {
                    assert(seq![a1.spec_to_val(), a2.spec_to_val(), a3.spec_to_val(), a4.spec_to_val(), a5.spec_to_val(), a6.spec_to_val(), a7.spec_to_val(), a8.spec_to_val(), a9.spec_to_val(), a10.spec_to_val(), a11.spec_to_val()] =~= v@);
                }
                return Ok((a1, a2, a3, a4, a5, a6, a7, a8, a9, a10, a11));
            }
            proof {
                if vals_have_types(v@, Self::spec_val_types()) {
                    assert(v@[0].spec_get_type() == A1::spec_val_type());
                    assert(v@[1].spec_get_type() == A2::spec_val_type());
                    assert(v@[2].spec_get_type() == A3::spec_val_type());
                    assert(v@[3].spec_get_type() == A4::spec_val_type());
                    assert(v@[4].spec_get_type() == A5::spec_val_type());
                    assert(v@[5].spec_get_type() == A6::spec_val_type());
                    assert(v@[6].spec_get_type() == A7::spec_val_type());
                    assert(v@[7].spec_get_type() == A8::spec_val_type());
                    assert(v@[8].spec_get_type() == A9::spec_val_type());
                    assert(v@[9].spec_get_type() == A10::spec_val_type());
                    assert(v@[10].spec_get_type() == A11::spec_val_type());
                }
            }
        }
        Err(WasmTyVecCoercionError::new(v.as_slice(), targets.as_slice()))
    }

    fn to_val_vec(&self) -> (r: Vec<Val>) {
        let mut v = Vec::new();
        v.push(self.0.to_val());
        v.push(self.1.to_val());
        v.push(self.2.to_val());
        v.push(self.3.to_val());
        v.push(self.4.to_val());
        v.push(self.5.to_val());
        v.push(self.6.to_val());
        v.push(self.7.to_val());
        v.push(self.8.to_val());
        v.push(self.9.to_val());
        v.push(self.10.to_val());
        proof {
            assert(v@ =~= self.spec_to_vals());
        }
        v
    }

    fn try_from_bytes(bs: &[u8]) -> (r: Result<Self, WasmTyVecParseError>) {
        let targets = Self::val_types();
        let vals = match decode_vals(targets.as_slice(), bs) {
            Ok(vals) => vals,
            Err(e) => {
                return Err(e);
            },
        };
        proof {
            lemma_vals_from_bytes_types(targets@, bs@);
        }
        let a1 = A1::try_from_val(vals[0]);
        let a2 = A2::try_from_val(vals[1]);
        let a3 = A3::try_from_val(vals[2]);
        let a4 = A4::try_from_val(vals[3]);
        let a5 = A5::try_from_val(vals[4]);
        let a6 = A6::try_from_val(vals[5]);
        let a7 = A7::try_from_val(vals[6]);
        let a8 = A8::try_from_val(vals[7]);
        let a9 = A9::try_from_val(vals[8]);
        let a10 = A10::try_from_val(vals[9]);
        let a11 = A11::try_from_val(vals[10]);
        if let (Ok(a1), Ok(a2), Ok(a3), Ok(a4), Ok(a5), Ok(a6), Ok(a7), Ok(a8), Ok(a9), Ok(a10), Ok(a11)) = (a1, a2, a3, a4, a5, a6, a7, a8, a9, a10, a11) {
            proof {
                assert(seq![a1.spec_to_val(), a2.spec_to_val(), a3.spec_to_val(), a4.spec_to_val(), a5.spec_to_val(), a6.spec_to_val(), a7.spec_to_val(), a8.spec_to_val(), a9.spec_to_val(), a10.spec_to_val(), a11.spec_to_val()] =~= vals@);
            }
            return Ok((a1, a2, a3, a4, a5, a6, a7, a8, a9, a10, a11));
        }
        proof {
            assert(vals@[0].spec_get_type() == A1::spec_val_type());
            assert(vals@[1].spec_get_type() == A2::spec_val_type());
            assert(vals@[2].spec_get_type() == A3::spec_val_type());
            assert(vals@[3].spec_get_type() == A4::spec_val_type());
            assert(vals@[4].spec_get_type() == A5::spec_val_type());
            assert(vals@[5].spec_get_type() == A6::spec_val_type());
            assert(vals@[6].spec_get_type() == A7::spec_val_type());
            assert(vals@[7].spec_get_type() == A8::spec_val_type());
            assert(vals@[8].spec_get_type() == A9::spec_val_type());
            assert(vals@[9].spec_get_type() == A10::spec_val_type());
            assert(vals@[10].spec_get_type() == A11::spec_val_type());
        }
        Err(WasmTyVecParseError::new(bs, targets.as_slice()))
    }

    fn to_bytes(&self) -> (r: Vec<u8>) {
        let vals = self.to_val_vec();
        encode_vals(vals.as_slice())
    }
}

impl<A1: WasmTyVal, A2: WasmTyVal, A3: WasmTyVal, A4: WasmTyVal, A5: WasmTyVal, A6: WasmTyVal, A7: WasmTyVal, A8: WasmTyVal, A9: WasmTyVal, A10: WasmTyVal, A11: WasmTyVal, A12: WasmTyVal> WasmTyVec for (A1, A2, A3, A4, A5, A6, A7, A8, A9, A10, A11, A12) {
    open spec fn spec_val_types() -> Seq<ValType> {
        seq![A1::spec_val_type(), A2::spec_val_type(), A3::spec_val_type(), A4::spec_val_type(), A5::spec_val_type(), A6::spec_val_type(), A7::spec_val_type(), A8::spec_val_type(), A9::spec_val_type(), A10::spec_val_type(), A11::spec_val_type(), A12::spec_val_type()]
    }

    open spec fn spec_to_vals(self) -> Seq<Val> {
        seq![self.0.spec_to_val(), self.1.spec_to_val(), self.2.spec_to_val(), self.3.spec_to_val(), self.4.spec_to_val(), self.5.spec_to_val(), self.6.spec_to_val(), self.7.spec_to_val(), self.8.spec_to_val(), self.9.spec_to_val(), self.10.spec_to_val(), self.11.spec_to_val()]
    }

    proof fn lemma_to_vals(self) {
        self.0.lemma_to_val();
        self.1.lemma_to_val();
        self.2.lemma_to_val();
        self.3.lemma_to_val();
        self.4.lemma_to_val();
        self.5.lemma_to_val();
        self.6.lemma_to_val();
        self.7.lemma_to_val();
        self.8.lemma_to_val();
        self.9.lemma_to_val();
        self.10.lemma_to_val();
        self.11.lemma_to_val();
        assert(vals_have_types(self.spec_to_vals(), Self::spec_val_types()));
    }

    fn val_types() -> (r: Vec<ValType>) {
        let v = vec![A1::val_type(), A2::val_type(), A3::val_type(), A4::val_type(), A5::val_type(), A6::val_type(), A7::val_type(), A8::val_type(), A9::val_type(), A10::val_type(), A11::val_type(), A12::val_type()];
        proof {
            assert(v@ =~= Self::spec_val_types());
        }
        v
    }

    fn try_from_val_vec(v: &Vec<Val>) -> (r: Result<Self, WasmTyVecCoercionError>) {
        let targets = Self::val_types();
        if v.len() == 12 {
            let a1 = A1::try_from_val(v[0]);
            let a2 = A2::try_from_val(v[1]);
            let a3 = A3::try_from_val(v[2]);
            let a4 = A4::try_from_val(v[3]);
            let a5 = A5::try_from_val(v[4]);
            let a6 = A6::try_from_val(v[5]);
            let a7 = A7::try_from_val(v[6]);
            let a8 = A8::try_from_val(v[7]);
            let a9 = A9::try_from_val(v[8]);
            let a10 = A10::try_from_val(v[9]);
            let a11 = A11::try_from_val(v[10]);
            let a12 = A12::try_from_val(v[11]);
            if let (Ok(a1), Ok(a2), Ok(a3), Ok(a4), Ok(a5), Ok(a6), Ok(a7), Ok(a8), Ok(a9), Ok(a10), Ok(a11), Ok(a12)) = (a1, a2, a3, a4, a5, a6, a7, a8, a9, a10, a11, a12) {
                proof {
                    assert(seq![a1.spec_to_val(), a2.spec_to_val(), a3.spec_to_val(), a4.spec_to_val(), a5.spec_to_val(), a6.spec_to_val(), a7.spec_to_val(), a8.spec_to_val(), a9.spec_to_val(), a10.spec_to_val(), a11.spec_to_val(), a12.spec_to_val()] =~= v@);
                }
                return Ok((a1, a2, a3, a4, a5, a6, a7, a8, a9, a10, a11, a12));
            }
            proof {
                if vals_have_types(v@, Self::spec_val_types()) {
                    assert(v@[0].spec_get_type() == A1::spec_val_type());
                    assert(v@[1].spec_get_type() == A2::spec_val_type());
                    assert(v@[2].spec_get_type() == A3::spec_val_type());
                    assert(v@[3].spec_get_type() == A4::spec_val_type());
                    assert(v@[4].spec_get_type() == A5::spec_val_type());
                    assert(v@[5].spec_get_type() == A6::spec_val_type());
                    assert(v@[6].spec_get_type() == A7::spec_val_type());
                    assert(v@[7].spec_get_type() == A8::spec_val_type());
                    assert(v@[8].spec_get_type() == A9::spec_val_type());
                    assert(v@[9].spec_get_type() == A10::spec_val_type());
                    assert(v@[10].spec_get_type() == A11::spec_val_type());
                    assert(v@[11].spec_get_type() == A12::spec_val_type());
                }
            }
        }
        Err(WasmTyVecCoercionError::new(v.as_slice(), targets.as_slice()))
    }

    fn to_val_vec(&self) -> (r: Vec<Val>) {
        let mut v = Vec::new();
        v.push(self.0.to_val());
        v.push(self.1.to_val());
        v.push(self.2.to_val());
        v.push(self.3.to_val());
        v.push(self.4.to_val());
        v.push(self.5.to_val());
        v.push(self.6.to_val());
        v.push(self.7.to_val());
        v.push(self.8.to_val());
        v.push(self.9.to_val());
        v.push(self.10.to_val());
        v.push(self.11.to_val());
        proof {
            assert(v@ =~= self.spec_to_vals());
        }
        v
    }

    fn try_from_bytes(bs: &[u8]) -> (r: Result<Self, WasmTyVecParseError>) {
        let targets = Self::val_types();
        let vals = match decode_vals(targets.as_slice(), bs) {
            Ok(vals) => vals,
            Err(e) => {
                return Err(e);
            },
        };
        proof {
            lemma_vals_from_bytes_types(targets@, bs@);
        }
        let a1 = A1::try_from_val(vals[0]);
        let a2 = A2::try_from_val(vals[1]);
        let a3 = A3::try_from_val(vals[2]);
        let a4 = A4::try_from_val(vals[3]);
        let a5 = A5::try_from_val(vals[4]);
        let a6 = A6::try_from_val(vals[5]);
        let a7 = A7::try_from_val(vals[6]);
        let a8 = A8::try_from_val(vals[7]);
        let a9 = A9::try_from_val(vals[8]);
        let a10 = A10::try_from_val(vals[9]);
        let a11 = A11::try_from_val(vals[10]);
        let a12 = A12::try_from_val(vals[11]);
        if let (Ok(a1), Ok(a2), Ok(a3), Ok(a4), Ok(a5), Ok(a6), Ok(a7), Ok(a8), Ok(a9), Ok(a10), Ok(a11), Ok(a12)) = (a1, a2, a3, a4, a5, a6, a7, a8, a9, a10, a11, a12) {
            proof {
                assert(seq![a1.spec_to_val(), a2.spec_to_val(), a3.spec_to_val(), a4.spec_to_val(), a5.spec_to_val(), a6.spec_to_val(), a7.spec_to_val(), a8.spec_to_val(), a9.spec_to_val(), a10.spec_to_val(), a11.spec_to_val(), a12.spec_to_val()] =~= vals@);
            }
            return Ok((a1, a2, a3, a4, a5, a6, a7, a8, a9, a10, a11, a12));
        }
        proof {
            assert(vals@[0].spec_get_type() == A1::spec_val_type());
            assert(vals@[1].spec_get_type() == A2::spec_val_type());
            assert(vals@[2].spec_get_type() == A3::spec_val_type());
            assert(vals@[3].spec_get_type() == A4::spec_val_type());
            assert(vals@[4].spec_get_type() == A5::spec_val_type());
            assert(vals@[5].spec_get_type() == A6::spec_val_type());
            assert(vals@[6].spec_get_type() == A7::spec_val_type());
            assert(vals@[7].spec_get_type() == A8::spec_val_type());
            assert(vals@[8].spec_get_type() == A9::spec_val_type());
            assert(vals@[9].spec_get_type() == A10::spec_val_type());
            assert(vals@[10].spec_get_type() == A11::spec_val_type());
            assert(vals@[11].spec_get_type() == A12::spec_val_type());
        }
        Err(WasmTyVecParseError::new(bs, targets.as_slice()))
    }

    fn to_bytes(&self) -> (r: Vec<u8>) {
        let vals = self.to_val_vec();
        encode_vals(vals.as_slice())
    }
}

impl<A1: WasmTyVal, A2: WasmTyVal, A3: WasmTyVal, A4: WasmTyVal, A5: WasmTyVal, A6: WasmTyVal, A7: WasmTyVal, A8: WasmTyVal, A9: WasmTyVal, A10: WasmTyVal, A11: WasmTyVal, A12: WasmTyVal, A13: WasmTyVal> WasmTyVec for (A1, A2, A3, A4, A5, A6, A7, A8, A9, A10, A11, A12, A13) {
    open spec fn spec_val_types() -> Seq<ValType> {
        seq![A1::spec_val_type(), A2::spec_val_type(), A3::spec_val_type(), A4::spec_val_type(), A5::spec_val_type(), A6::spec_val_type(), A7::spec_val_type(), A8::spec_val_type(), A9::spec_val_type(), A10::spec_val_type(), A11::spec_val_type(), A12::spec_val_type(), A13::spec_val_type()]
    }

    open spec fn spec_to_vals(self) -> Seq<Val> {
        seq![self.0.spec_to_val(), self.1.spec_to_val(), self.2.spec_to_val(), self.3.spec_to_val(), self.4.spec_to_val(), self.5.spec_to_val(), self.6.spec_to_val(), self.7.spec_to_val(), self.8.spec_to_val(), self.9.spec_to_val(), self.10.spec_to_val(), self.11.spec_to_val(), self.12.spec_to_val()]
    }

    proof fn lemma_to_vals(self) {
        self.0.lemma_to_val();
        self.1.lemma_to_val();
        self.2.lemma_to_val();
        self.3.lemma_to_val();
        self.4.lemma_to_val();
        self.5.lemma_to_val();
        self.6.lemma_to_val();
        self.7.lemma_to_val();
        self.8.lemma_to_val();
        self.9.lemma_to_val();
        self.10.lemma_to_val();
        self.11.lemma_to_val();
        self.12.lemma_to_val();
        assert(vals_have_types(self.spec_to_vals(), Self::spec_val_types()));
    }

    fn val_types() -> (r: Vec<ValType>) {
        let v = vec![A1::val_type(), A2::val_type(), A3::val_type(), A4::val_type(), A5::val_type(), A6::val_type(), A7::val_type(), A8::val_type(), A9::val_type(), A10::val_type(), A11::val_type(), A12::val_type(), A13::val_type()];
        proof {
            assert(v@ =~= Self::spec_val_types());
        }
        v
    }

    fn try_from_val_vec(v: &Vec<Val>) -> (r: Result<Self, WasmTyVecCoercionError>) {
        let targets = Self::val_types();
        if v.len() == 13 {
            let a1 = A1::try_from_val(v[0]);
            let a2 = A2::try_from_val(v[1]);
            let a3 = A3::try_from_val(v[2]);
            let a4 = A4::try_from_val(v[3]);
            let a5 = A5::try_from_val(v[4]);
            let a6 = A6::try_from_val(v[5]);
            let a7 = A7::try_from_val(v[6]);
            let a8 = A8::try_from_val(v[7]);
            let a9 = A9::try_from_val(v[8]);
            let a10 = A10::try_from_val(v[9]);
            let a11 = A11::try_from_val(v[10]);
            let a12 = A12::try_from_val(v[11]);
            let a13 = A13::try_from_val(v[12]);
            if let (Ok(a1), Ok(a2), Ok(a3), Ok(a4), Ok(a5), Ok(a6), Ok(a7), Ok(a8), Ok(a9), Ok(a10), Ok(a11), Ok(a12), Ok(a13)) = (a1, a2, a3, a4, a5, a6, a7, a8, a9, a10, a11, a12, a13) {
                proof {
                    assert(seq![a1.spec_to_val(), a2.spec_to_val(), a3.spec_to_val(), a4.spec_to_val(), a5.spec_to_val(), a6.spec_to_val(), a7.spec_to_val(), a8.spec_to_val(), a9.spec_to_val(), a10.spec_to_val(), a11.spec_to_val(), a12.spec_to_val(), a13.spec_to_val()] =~= v@);
                }
                return Ok((a1, a2, a3, a4, a5, a6, a7, a8, a9, a10, a11, a12, a13));
            }
            proof {
                if vals_have_types(v@, Self::spec_val_types()) {
                    assert(v@[0].spec_get_type() == A1::spec_val_type());
                    assert(v@[1].spec_get_type() == A2::spec_val_type());
                    assert(v@[2].spec_get_type() == A3::spec_val_type());
                    assert(v@[3].spec_get_type() == A4::spec_val_type());
                    assert(v@[4].spec_get_type() == A5::spec_val_type());
                    assert(v@[5].spec_get_type() == A6::spec_val_type());
                    assert(v@[6].spec_get_type() == A7::spec_val_type());
                    assert(v@[7].spec_get_type() == A8::spec_val_type());
                    assert(v@[8].spec_get_type() == A9::spec_val_type());
                    assert(v@[9].spec_get_type() == A10::spec_val_type());
                    assert(v@[10].spec_get_type() == A11::spec_val_type());
                    assert(v@[11].spec_get_type() == A12::spec_val_type());
                    assert(v@[12].spec_get_type() == A13::spec_val_type());
                }
            }
        }
        Err(WasmTyVecCoercionError::new(v.as_slice(), targets.as_slice()))
    }

    fn to_val_vec(&self) -> (r: Vec<Val>) {
        let mut v = Vec::new();
        v.push(self.0.to_val());
        v.push(self.1.to_val());
        v.push(self.2.to_val());
        v.push(self.3.to_val());
        v.push(self.4.to_val());
        v.push(self.5.to_val());
        v.push(self.6.to_val());
        v.push(self.7.to_val());
        v.push(self.8.to_val());
        v.push(self.9.to_val());
        v.push(self.10.to_val());
        v.push(self.11.to_val());
        v.push(self.12.to_val());
        proof {
            assert(v@ =~= self.spec_to_vals());
        }
        v
    }

    fn try_from_bytes(bs: &[u8]) -> (r: Result<Self, WasmTyVecParseError>) {
        let targets = Self::val_types();
        let vals = match decode_vals(targets.as_slice(), bs) {
            Ok(vals) => vals,
            Err(e) => {
                return Err(e);
            },
        };
        proof {
            lemma_vals_from_bytes_types(targets@, bs@);
        }
        let a1 = A1::try_from_val(vals[0]);
        let a2 = A2::try_from_val(vals[1]);
        let a3 = A3::try_from_val(vals[2]);
        let a4 = A4::try_from_val(vals[3]);
        let a5 = A5::try_from_val(vals[4]);
        let a6 = A6::try_from_val(vals[5]);
        let a7 = A7::try_from_val(vals[6]);
        let a8 = A8::try_from_val(vals[7]);
        let a9 = A9::try_from_val(vals[8]);
        let a10 = A10::try_from_val(vals[9]);
        let a11 = A11::try_from_val(vals[10]);
        let a12 = A12::try_from_val(vals[11]);
        let a13 = A13::try_from_val(vals[12]);
        if let (Ok(a1), Ok(a2), Ok(a3), Ok(a4), Ok(a5), Ok(a6), Ok(a7), Ok(a8), Ok(a9), Ok(a10), Ok(a11), Ok(a12), Ok(a13)) = (a1, a2, a3, a4, a5, a6, a7, a8, a9, a10, a11, a12, a13) {
            proof {
                assert(seq![a1.spec_to_val(), a2.spec_to_val(), a3.spec_to_val(), a4.spec_to_val(), a5.spec_to_val(), a6.spec_to_val(), a7.spec_to_val(), a8.spec_to_val(), a9.spec_to_val(), a10.spec_to_val(), a11.spec_to_val(), a12.spec_to_val(), a13.spec_to_val()] =~= vals@);
            }
            return Ok((a1, a2, a3, a4, a5, a6, a7, a8, a9, a10, a11, a12, a13));
        }
        proof {
            assert(vals@[0].spec_get_type() == A1::spec_val_type());
            assert(vals@[1].spec_get_type() == A2::spec_val_type());
            assert(vals@[2].spec_get_type() == A3::spec_val_type());
            assert(vals@[3].spec_get_type() == A4::spec_val_type());
            assert(vals@[4].spec_get_type() == A5::spec_val_type());
            assert(vals@[5].spec_get_type() == A6::spec_val_type());
            assert(vals@[6].spec_get_type() == A7::spec_val_type());
            assert(vals@[7].spec_get_type() == A8::spec_val_type());
            assert(vals@[8].spec_get_type() == A9::spec_val_type());
            assert(vals@[9].spec_get_type() == A10::spec_val_type());
            assert(vals@[10].spec_get_type() == A11::spec_val_type());
            assert(vals@[11].spec_get_type() == A12::spec_val_type());
            assert(vals@[12].spec_get_type() == A13::spec_val_type());
        }
        Err(WasmTyVecParseError::new(bs, targets.as_slice()))
    }

    fn to_bytes(&self) -> (r: Vec<u8>) {
        let vals = self.to_val_vec();
        encode_vals(vals.as_slice())
    }
}

impl<A1: WasmTyVal, A2: WasmTyVal, A3: WasmTyVal, A4: WasmTyVal, A5: WasmTyVal, A6: WasmTyVal, A7: WasmTyVal, A8: WasmTyVal, A9: WasmTyVal, A10: WasmTyVal, A11: WasmTyVal, A12: WasmTyVal, A13: WasmTyVal, A14: WasmTyVal> WasmTyVec for (A1, A2, A3, A4, A5, A6, A7, A8, A9, A10, A11, A12, A13, A14) {
    open spec fn spec_val_types() -> Seq<ValType> {
        seq![A1::spec_val_type(), A2::spec_val_type(), A3::spec_val_type(), A4::spec_val_type(), A5::spec_val_type(), A6::spec_val_type(), A7::spec_val_type(), A8::spec_val_type(), A9::spec_val_type(), A10::spec_val_type(), A11::spec_val_type(), A12::spec_val_type(), A13::spec_val_type(), A14::spec_val_type()]
    }

    open spec fn spec_to_vals(self) -> Seq<Val> {
        seq![self.0.spec_to_val(), self.1.spec_to_val(), self.2.spec_to_val(), self.3.spec_to_val(), self.4.spec_to_val(), self.5.spec_to_val(), self.6.spec_to_val(), self.7.spec_to_val(), self.8.spec_to_val(), self.9.spec_to_val(), self.10.spec_to_val(), self.11.spec_to_val(), self.12.spec_to_val(), self.13.spec_to_val()]
    }

    proof fn lemma_to_vals(self) {
        self.0.lemma_to_val();
        self.1.lemma_to_val();
        self.2.lemma_to_val();
        self.3.lemma_to_val();
        self.4.lemma_to_val();
        self.5.lemma_to_val();
        self.6.lemma_to_val();
        self.7.lemma_to_val();
        self.8.lemma_to_val();
        self.9.lemma_to_val();
        self.10.lemma_to_val();
        self.11.lemma_to_val();
        self.12.lemma_to_val();
        self.13.lemma_to_val();
        assert(vals_have_types(self.spec_to_vals(), Self::spec_val_types()));
    }

    fn val_types() -> (r: Vec<ValType>) {
        let v = vec![A1::val_type(), A2::val_type(), A3::val_type(), A4::val_type(), A5::val_type(), A6::val_type(), A7::val_type(), A8::val_type(), A9::val_type(), A10::val_type(), A11::val_type(), A12::val_type(), A13::val_type(), A14::val_type()];
        proof {
            assert(v@ =~= Self::spec_val_types());
        }
        v
    }

    fn try_from_val_vec(v: &Vec<Val>) -> (r: Result<Self, WasmTyVecCoercionError>) {
        let targets = Self::val_types();
        if v.len() == 14 {
            let a1 = A1::try_from_val(v[0]);
            let a2 = A2::try_from_val(v[1]);
            let a3 = A3::try_from_val(v[2]);
            let a4 = A4::try_from_val(v[3]);
            let a5 = A5::try_from_val(v[4]);
            let a6 = A6::try_from_val(v[5]);
            let a7 = A7::try_from_val(v[6]);
            let a8 = A8::try_from_val(v[7]);
            let a9 = A9::try_from_val(v[8]);
            let a10 = A10::try_from_val(v[9]);
            let a11 = A11::try_from_val(v[10]);
            let a12 = A12::try_from_val(v[11]);
            let a13 = A13::try_from_val(v[12]);
            let a14 = A14::try_from_val(v[13]);
            if let (Ok(a1), Ok(a2), Ok(a3), Ok(a4), Ok(a5), Ok(a6), Ok(a7), Ok(a8), Ok(a9), Ok(a10), Ok(a11), Ok(a12), Ok(a13), Ok(a14)) = (a1, a2, a3, a4, a5, a6, a7, a8, a9, a10, a11, a12, a13, a14) {
                proof {
                    assert(seq![a1.spec_to_val(), a2.spec_to_val(), a3.spec_to_val(), a4.spec_to_val(), a5.spec_to_val(), a6.spec_to_val(), a7.spec_to_val(), a8.spec_to_val(), a9.spec_to_val(), a10.spec_to_val(), a11.spec_to_val(), a12.spec_to_val(), a13.spec_to_val(), a14.spec_to_val()] =~= v@);
                }
                return Ok((a1, a2, a3, a4, a5, a6, a7, a8, a9, a10, a11, a12, a13, a14));
            }
            proof {
                if vals_have_types(v@, Self::spec_val_types()) {
                    assert(v@[0].spec_get_type() == A1::spec_val_type());
                    assert(v@[1].spec_get_type() == A2::spec_val_type());
                    assert(v@[2].spec_get_type() == A3::spec_val_type());
                    assert(v@[3].spec_get_type() == A4::spec_val_type());
                    assert(v@[4].spec_get_type() == A5::spec_val_type());
                    assert(v@[5].spec_get_type() == A6::spec_val_type());
                    assert(v@[6].spec_get_type() == A7::spec_val_type());
                    assert(v@[7].spec_get_type() == A8::spec_val_type());
                    assert(v@[8].spec_get_type() == A9::spec_val_type());
                    assert(v@[9].spec_get_type() == A10::spec_val_type());
                    assert(v@[10].spec_get_type() == A11::spec_val_type());
                    assert(v@[11].spec_get_type() == A12::spec_val_type());
                    assert(v@[12].spec_get_type() == A13::spec_val_type());
                    assert(v@[13].spec_get_type() == A14::spec_val_type());
                }
            }
        }
        Err(WasmTyVecCoercionError::new(v.as_slice(), targets.as_slice()))
    }

    fn to_val_vec(&self) -> (r: Vec<Val>) {
        let mut v = Vec::new();
        v.push(self.0.to_val());
        v.push(self.1.to_val());
        v.push(self.2.to_val());
        v.push(self.3.to_val());
        v.push(self.4.to_val());
        v.push(self.5.to_val());
        v.push(self.6.to_val());
        v.push(self.7.to_val());
        v.push(self.8.to_val());
        v.push(self.9.to_val());
        v.push(self.10.to_val());
        v.push(self.11.to_val());
        v.push(self.12.to_val());
        v.push(self.13.to_val());
        proof {
            assert(v@ =~= self.spec_to_vals());
        }
        v
    }

    fn try_from_bytes(bs: &[u8]) -> (r: Result<Self, WasmTyVecParseError>) {
        let targets = Self::val_types();
        let vals = match decode_vals(targets.as_slice(), bs) {
            Ok(vals) => vals,
            Err(e) => {
                return Err(e);
            },
        };
        proof {
            lemma_vals_from_bytes_types(targets@, bs@);
        }
        let a1 = A1::try_from_val(vals[0]);
        let a2 = A2::try_from_val(vals[1]);
        let a3 = A3::try_from_val(vals[2]);
        let a4 = A4::try_from_val(vals[3]);
        let a5 = A5::try_from_val(vals[4]);
        let a6 = A6::try_from_val(vals[5]);
        let a7 = A7::try_from_val(vals[6]);
        let a8 = A8::try_from_val(vals[7]);
        let a9 = A9::try_from_val(vals[8]);
        let a10 = A10::try_from_val(vals[9]);
        let a11 = A11::try_from_val(vals[10]);
        let a12 = A12::try_from_val(vals[11]);
        let a13 = A13::try_from_val(vals[12]);
        let a14 = A14::try_from_val(vals[13]);
        if let (Ok(a1), Ok(a2), Ok(a3), Ok(a4), Ok(a5), Ok(a6), Ok(a7), Ok(a8), Ok(a9), Ok(a10), Ok(a11), Ok(a12), Ok(a13), Ok(a14)) = (a1, a2, a3, a4, a5, a6, a7, a8, a9, a10, a11, a12, a13, a14) {
            proof {
                assert(seq![a1.spec_to_val(), a2.spec_to_val(), a3.spec_to_val(), a4.spec_to_val(), a5.spec_to_val(), a6.spec_to_val(), a7.spec_to_val(), a8.spec_to_val(), a9.spec_to_val(), a10.spec_to_val(), a11.spec_to_val(), a12.spec_to_val(), a13.spec_to_val(), a14.spec_to_val()] =~= vals@);
            }
            return Ok((a1, a2, a3, a4, a5, a6, a7, a8, a9, a10, a11, a12, a13, a14));
        }
        proof {
            assert(vals@[0].spec_get_type() == A1::spec_val_type());
            assert(vals@[1].spec_get_type() == A2::spec_val_type());
            assert(vals@[2].spec_get_type() == A3::spec_val_type());
            assert(vals@[3].spec_get_type() == A4::spec_val_type());
            assert(vals@[4].spec_get_type() == A5::spec_val_type());
            assert(vals@[5].spec_get_type() == A6::spec_val_type());
            assert(vals@[6].spec_get_type() == A7::spec_val_type());
            assert(vals@[7].spec_get_type() == A8::spec_val_type());
            assert(vals@[8].spec_get_type() == A9::spec_val_type());
            assert(vals@[9].spec_get_type() == A10::spec_val_type());
            assert(vals@[10].spec_get_type() == A11::spec_val_type());
            assert(vals@[11].spec_get_type() == A12::spec_val_type());
            assert(vals@[12].spec_get_type() == A13::spec_val_type());
            assert(vals@[13].spec_get_type() == A14::spec_val_type());
        }
        Err(WasmTyVecParseError::new(bs, targets.as_slice()))
    }

    fn to_bytes(&self) -> (r: Vec<u8>) {
        let vals = self.to_val_vec();
        encode_vals(vals.as_slice())
    }
}

impl<A1: WasmTyVal, A2: WasmTyVal, A3: WasmTyVal, A4: WasmTyVal, A5: WasmTyVal, A6: WasmTyVal, A7: WasmTyVal, A8: WasmTyVal, A9: WasmTyVal, A10: WasmTyVal, A11: WasmTyVal, A12: WasmTyVal, A13: WasmTyVal, A14: WasmTyVal, A15: WasmTyVal> WasmTyVec for (A1, A2, A3, A4, A5, A6, A7, A8, A9, A10, A11, A12, A13, A14, A15) {
    open spec fn spec_val_types() -> Seq<ValType> {
        seq![A1::spec_val_type(), A2::spec_val_type(), A3::spec_val_type(), A4::spec_val_type(), A5::spec_val_type(), A6::spec_val_type(), A7::spec_val_type(), A8::spec_val_type(), A9::spec_val_type(), A10::spec_val_type(), A11::spec_val_type(), A12::spec_val_type(), A13::spec_val_type(), A14::spec_val_type(), A15::spec_val_type()]
    }

    open spec fn spec_to_vals(self) -> Seq<Val> {
        seq![self.0.spec_to_val(), self.1.spec_to_val(), self.2.spec_to_val(), self.3.spec_to_val(), self.4.spec_to_val(), self.5.spec_to_val(), self.6.spec_to_val(), self.7.spec_to_val(), self.8.spec_to_val(), self.9.spec_to_val(), self.10.spec_to_val(), self.11.spec_to_val(), self.12.spec_to_val(), self.13.spec_to_val(), self.14.spec_to_val()]
    }

    proof fn lemma_to_vals(self) {
        self.0.lemma_to_val();
        self.1.lemma_to_val();
        self.2.lemma_to_val();
        self.3.lemma_to_val();
        self.4.lemma_to_val();
        self.5.lemma_to_val();
        self.6.lemma_to_val();
        self.7.lemma_to_val();
        self.8.lemma_to_val();
        self.9.lemma_to_val();
        self.10.lemma_to_val();
        self.11.lemma_to_val();
        self.12.lemma_to_val();
        self.13.lemma_to_val();
        self.14.lemma_to_val();
        assert(vals_have_types(self.spec_to_vals(), Self::spec_val_types()));
    }

    fn val_types() -> (r: Vec<ValType>) {
        let v = vec![A1::val_type(), A2::val_type(), A3::val_type(), A4::val_type(), A5::val_type(), A6::val_type(), A7::val_type(), A8::val_type(), A9::val_type(), A10::val_type(), A11::val_type(), A12::val_type(), A13::val_type(), A14::val_type(), A15::val_type()];
        proof {
            assert(v@ =~= Self::spec_val_types());
        }
        v
    }

    fn try_from_val_vec(v: &Vec<Val>) -> (r: Result<Self, WasmTyVecCoercionError>) {
        let targets = Self::val_types();
        if v.len() == 15 {
            let a1 = A1::try_from_val(v[0]);
            let a2 = A2::try_from_val(v[1]);
            let a3 = A3::try_from_val(v[2]);
            let a4 = A4::try_from_val(v[3]);
            let a5 = A5::try_from_val(v[4]);
            let a6 = A6::try_from_val(v[5]);
            let a7 = A7::try_from_val(v[6]);
            let a8 = A8::try_from_val(v[7]);
            let a9 = A9::try_from_val(v[8]);
            let a10 = A10::try_from_val(v[9]);
            let a11 = A11::try_from_val(v[10]);
            let a12 = A12::try_from_val(v[11]);
            let a13 = A13::try_from_val(v[12]);
            let a14 = A14::try_from_val(v[13]);
            let a15 = A15::try_from_val(v[14]);
            if let (Ok(a1), Ok(a2), Ok(a3), Ok(a4), Ok(a5), Ok(a6), Ok(a7), Ok(a8), Ok(a9), Ok(a10), Ok(a11), Ok(a12), Ok(a13), Ok(a14), Ok(a15)) = (a1, a2, a3, a4, a5, a6, a7, a8, a9, a10, a11, a12, a13, a14, a15) {
                proof {
                    assert(seq![a1.spec_to_val(), a2.spec_to_val(), a3.spec_to_val(), a4.spec_to_val(), a5.spec_to_val(), a6.spec_to_val(), a7.spec_to_val(), a8.spec_to_val(), a9.spec_to_val(), a10.spec_to_val(), a11.spec_to_val(), a12.spec_to_val(), a13.spec_to_val(), a14.spec_to_val(), a15.spec_to_val()] =~= v@);
                }
                return Ok((a1, a2, a3, a4, a5, a6, a7, a8, a9, a10, a11, a12, a13, a14, a15));
            }
            proof {
                if vals_have_types(v@, Self::spec_val_types()) {
                    assert(v@[0].spec_get_type() == A1::spec_val_type());
                    assert(v@[1].spec_get_type() == A2::spec_val_type());
                    assert(v@[2].spec_get_type() == A3::spec_val_type());
                    assert(v@[3].spec_get_type() == A4::spec_val_type());
                    assert(v@[4].spec_get_type() == A5::spec_val_type());
                    assert(v@[5].spec_get_type() == A6::spec_val_type());
                    assert(v@[6].spec_get_type() == A7::spec_val_type());
                    assert(v@[7].spec_get_type() == A8::spec_val_type());
                    assert(v@[8].spec_get_type() == A9::spec_val_type());
                    assert(v@[9].spec_get_type() == A10::spec_val_type());
                    assert(v@[10].spec_get_type() == A11::spec_val_type());
                    assert(v@[11].spec_get_type() == A12::spec_val_type());
                    assert(v@[12].spec_get_type() == A13::spec_val_type());
                    assert(v@[13].spec_get_type() == A14::spec_val_type());
                    assert(v@[14].spec_get_type() == A15::spec_val_type());
                }
            }
        }
        Err(WasmTyVecCoercionError::new(v.as_slice(), targets.as_slice()))
    }

    fn to_val_vec(&self) -> (r: Vec<Val>) {
        let mut v = Vec::new();
        v.push(self.0.to_val());
        v.push(self.1.to_val());
        v.push(self.2.to_val());
        v.push(self.3.to_val());
        v.push(self.4.to_val());
        v.push(self.5.to_val());
        v.push(self.6.to_val());
        v.push(self.7.to_val());
        v.push(self.8.to_val());
        v.push(self.9.to_val());
        v.push(self.10.to_val());
        v.push(self.11.to_val());
        v.push(self.12.to_val());
        v.push(self.13.to_val());
        v.push(self.14.to_val());
        proof {
            assert(v@ =~= self.spec_to_vals());
        }
        v
    }

    fn try_from_bytes(bs: &[u8]) -> (r: Result<Self, WasmTyVecParseError>) {
        let targets = Self::val_types();
        let vals = match decode_vals(targets.as_slice(), bs) {
            Ok(vals) => vals,
            Err(e) => {
                return Err(e);
            },
        };
        proof {
            lemma_vals_from_bytes_types(targets@, bs@);
        }
        let a1 = A1::try_from_val(vals[0]);
        let a2 = A2::try_from_val(vals[1]);
        let a3 = A3::try_from_val(vals[2]);
        let a4 = A4::try_from_val(vals[3]);
        let a5 = A5::try_from_val(vals[4]);
        let a6 = A6::try_from_val(vals[5]);
        let a7 = A7::try_from_val(vals[6]);
        let a8 = A8::try_from_val(vals[7]);
        let a9 = A9::try_from_val(vals[8]);
        let a10 = A10::try_from_val(vals[9]);
        let a11 = A11::try_from_val(vals[10]);
        let a12 = A12::try_from_val(vals[11]);
        let a13 = A13::try_from_val(vals[12]);
        let a14 = A14::try_from_val(vals[13]);
        let a15 = A15::try_from_val(vals[14]);
        if let (Ok(a1), Ok(a2), Ok(a3), Ok(a4), Ok(a5), Ok(a6), Ok(a7), Ok(a8), Ok(a9), Ok(a10), Ok(a11), Ok(a12), Ok(a13), Ok(a14), Ok(a15)) = (a1, a2, a3, a4, a5, a6, a7, a8, a9, a10, a11, a12, a13, a14, a15) {
            proof {
                assert(seq![a1.spec_to_val(), a2.spec_to_val(), a3.spec_to_val(), a4.spec_to_val(), a5.spec_to_val(), a6.spec_to_val(), a7.spec_to_val(), a8.spec_to_val(), a9.spec_to_val(), a10.spec_to_val(), a11.spec_to_val(), a12.spec_to_val(), a13.spec_to_val(), a14.spec_to_val(), a15.spec_to_val()] =~= vals@);
            }
            return Ok((a1, a2, a3, a4, a5, a6, a7, a8, a9, a10, a11, a12, a13, a14, a15));
        }
        proof {
            assert(vals@[0].spec_get_type() == A1::spec_val_type());
            assert(vals@[1].spec_get_type() == A2::spec_val_type());
            assert(vals@[2].spec_get_type() == A3::spec_val_type());
            assert(vals@[3].spec_get_type() == A4::spec_val_type());
            assert(vals@[4].spec_get_type() == A5::spec_val_type());
            assert(vals@[5].spec_get_type() == A6::spec_val_type());
            assert(vals@[6].spec_get_type() == A7::spec_val_type());
            assert(vals@[7].spec_get_type() == A8::spec_val_type());
            assert(vals@[8].spec_get_type() == A9::spec_val_type());
            assert(vals@[9].spec_get_type() == A10::spec_val_type());
            assert(vals@[10].spec_get_type() == A11::spec_val_type());
            assert(vals@[11].spec_get_type() == A12::spec_val_type());
            assert(vals@[12].spec_get_type() == A13::spec_val_type());
            assert(vals@[13].spec_get_type() == A14::spec_val_type());
            assert(vals@[14].spec_get_type() == A15::spec_val_type());
        }
        Err(WasmTyVecParseError::new(bs, targets.as_slice()))
    }

    fn to_bytes(&self) -> (r: Vec<u8>) {
        let vals = self.to_val_vec();
        encode_vals(vals.as_slice())
    }
}

impl<A1: WasmTyVal, A2: WasmTyVal, A3: WasmTyVal, A4: WasmTyVal, A5: WasmTyVal, A6: WasmTyVal, A7: WasmTyVal, A8: WasmTyVal, A9: WasmTyVal, A10: WasmTyVal, A11: WasmTyVal, A12: WasmTyVal, A13: WasmTyVal, A14: WasmTyVal, A15: WasmTyVal, A16: WasmTyVal> WasmTyVec for (A1, A2, A3, A4, A5, A6, A7, A8, A9, A10, A11, A12, A13, A14, A15, A16) {
    open spec fn spec_val_types() -> Seq<ValType> {
        seq![A1::spec_val_type(), A2::spec_val_type(), A3::spec_val_type(), A4::spec_val_type(), A5::spec_val_type(), A6::spec_val_type(), A7::spec_val_type(), A8::spec_val_type(), A9::spec_val_type(), A10::spec_val_type(), A11::spec_val_type(), A12::spec_val_type(), A13::spec_val_type(), A14::spec_val_type(), A15::spec_val_type(), A16::spec_val_type()]
    }

    open spec fn spec_to_vals(self) -> Seq<Val> {
        seq![self.0.spec_to_val(), self.1.spec_to_val(), self.2.spec_to_val(), self.3.spec_to_val(), self.4.spec_to_val(), self.5.spec_to_val(), self.6.spec_to_val(), self.7.spec_to_val(), self.8.spec_to_val(), self.9.spec_to_val(), self.10.spec_to_val(), self.11.spec_to_val(), self.12.spec_to_val(), self.13.spec_to_val(), self.14.spec_to_val(), self.15.spec_to_val()]
    }

    proof fn lemma_to_vals(self) {
        self.0.lemma_to_val();
        self.1.lemma_to_val();
        self.2.lemma_to_val();
        self.3.lemma_to_val();
        self.4.lemma_to_val();
        self.5.lemma_to_val();
        self.6.lemma_to_val();
        self.7.lemma_to_val();
        self.8.lemma_to_val();
        self.9.lemma_to_val();
        self.10.lemma_to_val();
        self.11.lemma_to_val();
        self.12.lemma_to_val();
        self.13.lemma_to_val();
        self.14.lemma_to_val();
        self.15.lemma_to_val();
        assert(vals_have_types(self.spec_to_vals(), Self::spec_val_types()));
    }

    fn val_types() -> (r: Vec<ValType>) {
        let v = vec![A1::val_type(), A2::val_type(), A3::val_type(), A4::val_type(), A5::val_type(), A6::val_type(), A7::val_type(), A8::val_type(), A9::val_type(), A10::val_type(), A11::val_type(), A12::val_type(), A13::val_type(), A14::val_type(), A15::val_type(), A16::val_type()];
        proof {
            assert(v@ =~= Self::spec_val_types());
        }
        v
    }

    fn try_from_val_vec(v: &Vec<Val>) -> (r: Result<Self, WasmTyVecCoercionError>) {
        let targets = Self::val_types();
        if v.len() == 16 {
            let a1 = A1::try_from_val(v[0]);
            let a2 = A2::try_from_val(v[1]);
            let a3 = A3::try_from_val(v[2]);
            let a4 = A4::try_from_val(v[3]);
            let a5 = A5::try_from_val(v[4]);
            let a6 = A6::try_from_val(v[5]);
            let a7 = A7::try_from_val(v[6]);
            let a8 = A8::try_from_val(v[7]);
            let a9 = A9::try_from_val(v[8]);
            let a10 = A10::try_from_val(v[9]);
            let a11 = A11::try_from_val(v[10]);
            let a12 = A12::try_from_val(v[11]);
            let a13 = A13::try_from_val(v[12]);
            let a14 = A14::try_from_val(v[13]);
            let a15 = A15::try_from_val(v[14]);
            let a16 = A16::try_from_val(v[15]);
            if let (Ok(a1), Ok(a2), Ok(a3), Ok(a4), Ok(a5), Ok(a6), Ok(a7), Ok(a8), Ok(a9), Ok(a10), Ok(a11), Ok(a12), Ok(a13), Ok(a14), Ok(a15), Ok(a16)) = (a1, a2, a3, a4, a5, a6, a7, a8, a9, a10, a11, a12, a13, a14, a15, a16) {
                proof {
                    assert(seq![a1.spec_to_val(), a2.spec_to_val(), a3.spec_to_val(), a4.spec_to_val(), a5.spec_to_val(), a6.spec_to_val(), a7.spec_to_val(), a8.spec_to_val(), a9.spec_to_val(), a10.spec_to_val(), a11.spec_to_val(), a12.spec_to_val(), a13.spec_to_val(), a14.spec_to_val(), a15.spec_to_val(), a16.spec_to_val()] =~= v@);
                }
                return Ok((a1, a2, a3, a4, a5, a6, a7, a8, a9, a10, a11, a12, a13, a14, a15, a16));
            }
            proof {
                if vals_have_types(v@, Self::spec_val_types()) {
                    assert(v@[0].spec_get_type() == A1::spec_val_type());
                    assert(v@[1].spec_get_type() == A2::spec_val_type());
                    assert(v@[2].spec_get_type() == A3::spec_val_type());
                    assert(v@[3].spec_get_type() == A4::spec_val_type());
                    assert(v@[4].spec_get_type() == A5::spec_val_type());
                    assert(v@[5].spec_get_type() == A6::spec_val_type());
                    assert(v@[6].spec_get_type() == A7::spec_val_type());
                    assert(v@[7].spec_get_type() == A8::spec_val_type());
                    assert(v@[8].spec_get_type() == A9::spec_val_type());
                    assert(v@[9].spec_get_type() == A10::spec_val_type());
                    assert(v@[10].spec_get_type() == A11::spec_val_type());
                    assert(v@[11].spec_get_type() == A12::spec_val_type());
                    assert(v@[12].spec_get_type() == A13::spec_val_type());
                    assert(v@[13].spec_get_type() == A14::spec_val_type());
                    assert(v@[14].spec_get_type() == A15::spec_val_type());
                    assert(v@[15].spec_get_type() == A16::spec_val_type());
                }
            }
        }
        Err(WasmTyVecCoercionError::new(v.as_slice(), targets.as_slice()))
    }

    fn to_val_vec(&self) -> (r: Vec<Val>) {
        let mut v = Vec::new();
        v.push(self.0.to_val());
        v.push(self.1.to_val());
        v.push(self.2.to_val());
        v.push(self.3.to_val());
        v.push(self.4.to_val());
        v.push(self.5.to_val());
        v.push(self.6.to_val());
        v.push(self.7.to_val());
        v.push(self.8.to_val());
        v.push(self.9.to_val());
        v.push(self.10.to_val());
        v.push(self.11.to_val());
        v.push(self.12.to_val());
        v.push(self.13.to_val());
        v.push(self.14.to_val());
        v.push(self.15.to_val());
        proof {
            assert(v@ =~= self.spec_to_vals());
        }
        v
    }

    fn try_from_bytes(bs: &[u8]) -> (r: Result<Self, WasmTyVecParseError>) {
        let targets = Self::val_types();
        let vals = match decode_vals(targets.as_slice(), bs) {
            Ok(vals) => vals,
            Err(e) => {
                return Err(e);
            },
        };
        proof {
            lemma_vals_from_bytes_types(targets@, bs@);
        }
        let a1 = A1::try_from_val(vals[0]);
        let a2 = A2::try_from_val(vals[1]);
        let a3 = A3::try_from_val(vals[2]);
        let a4 = A4::try_from_val(vals[3]);
        let a5 = A5::try_from_val(vals[4]);
        let a6 = A6::try_from_val(vals[5]);
        let a7 = A7::try_from_val(vals[6]);
        let a8 = A8::try_from_val(vals[7]);
        let a9 = A9::try_from_val(vals[8]);
        let a10 = A10::try_from_val(vals[9]);
        let a11 = A11::try_from_val(vals[10]);
        let a12 = A12::try_from_val(vals[11]);
        let a13 = A13::try_from_val(vals[12]);
        let a14 = A14::try_from_val(vals[13]);
        let a15 = A15::try_from_val(vals[14]);
        let a16 = A16::try_from_val(vals[15]);
        if let (Ok(a1), Ok(a2), Ok(a3), Ok(a4), Ok(a5), Ok(a6), Ok(a7), Ok(a8), Ok(a9), Ok(a10), Ok(a11), Ok(a12), Ok(a13), Ok(a14), Ok(a15), Ok(a16)) = (a1, a2, a3, a4, a5, a6, a7, a8, a9, a10, a11, a12, a13, a14, a15, a16) {
            proof {
                assert(seq![a1.spec_to_val(), a2.spec_to_val(), a3.spec_to_val(), a4.spec_to_val(), a5.spec_to_val(), a6.spec_to_val(), a7.spec_to_val(), a8.spec_to_val(), a9.spec_to_val(), a10.spec_to_val(), a11.spec_to_val(), a12.spec_to_val(), a13.spec_to_val(), a14.spec_to_val(), a15.spec_to_val(), a16.spec_to_val()] =~= vals@);
            }
            return Ok((a1, a2, a3, a4, a5, a6, a7, a8, a9, a10, a11, a12, a13, a14, a15, a16));
        }
        proof {
            assert(vals@[0].spec_get_type() == A1::spec_val_type());
            assert(vals@[1].spec_get_type() == A2::spec_val_type());
            assert(vals@[2].spec_get_type() == A3::spec_val_type());
            assert(vals@[3].spec_get_type() == A4::spec_val_type());
            assert(vals@[4].spec_get_type() == A5::spec_val_type());
            assert(vals@[5].spec_get_type() == A6::spec_val_type());
            assert(vals@[6].spec_get_type() == A7::spec_val_type());
            assert(vals@[7].spec_get_type() == A8::spec_val_type());
            assert(vals@[8].spec_get_type() == A9::spec_val_type());
            assert(vals@[9].spec_get_type() == A10::spec_val_type());
            assert(vals@[10].spec_get_type() == A11::spec_val_type());
            assert(vals@[11].spec_get_type() == A12::spec_val_type());
            assert(vals@[12].spec_get_type() == A13::spec_val_type());
            assert(vals@[13].spec_get_type() == A14::spec_val_type());
            assert(vals@[14].spec_get_type() == A15::spec_val_type());
            assert(vals@[15].spec_get_type() == A16::spec_val_type());
        }
        Err(WasmTyVecParseError::new(bs, targets.as_slice()))
    }

    fn to_bytes(&self) -> (r: Vec<u8>) {
        let vals = self.to_val_vec();
        encode_vals(vals.as_slice())
    }
}

impl TryFrom<u32> for FuncRef {
    type Error = &'static str;

    fn try_from(val: u32) -> (r: Result<Self, Self::Error>) {
        if val != u32::MAX {
            Ok(FuncRef(val))
        } else {
            Err("4-byte reference type cannot hold u32::MAX")
        }
    }
}

impl TryFromSpecImpl<u32> for FuncRef {
    open spec fn obeys_try_from_spec() -> bool {
        true
    }

    /// Any word but the null word is a reference to itself.
    open spec fn try_from_spec(val: u32) -> Result<Self, &'static str> {
        if val != u32::MAX {
            Ok(FuncRef::spec_from_word(val))
        } else {
            Err("4-byte reference type cannot hold u32::MAX")
        }
    }
}

impl TryFrom<Option<u32>> for FuncRef {
    type Error = &'static str;

    fn try_from(val: Option<u32>) -> (r: Result<Self, Self::Error>) {
        let val = match val {
            None => return Ok(FuncRef::none()),
            Some(val) => val,
        };
        <FuncRef as TryFrom<u32>>::try_from(val)
    }
}

impl TryFromSpecImpl<Option<u32>> for FuncRef {
    open spec fn obeys_try_from_spec() -> bool {
        true
    }

    /// No target is the null reference; any other target is taken as `u32` is.
    open spec fn try_from_spec(val: Option<u32>) -> Result<Self, &'static str> {
        match val {
            None => Ok(FuncRef::spec_from_word(u32::MAX)),
            Some(v) => <FuncRef as TryFromSpec<u32>>::try_from_spec(v),
        }
    }
}

impl TryFrom<u32> for ExternRef {
    type Error = &'static str;

    fn try_from(val: u32) -> (r: Result<Self, Self::Error>) {
        if val != u32::MAX {
            Ok(ExternRef(val))
        } else {
            Err("4-byte reference type cannot hold u32::MAX")
        }
    }
}

impl TryFromSpecImpl<u32> for ExternRef {
    open spec fn obeys_try_from_spec() -> bool {
        true
    }

    /// Any word but the null word is a reference to itself.
    open spec fn try_from_spec(val: u32) -> Result<Self, &'static str> {
        if val != u32::MAX {
            Ok(ExternRef::spec_from_word(val))
        } else {
            Err("4-byte reference type cannot hold u32::MAX")
        }
    }
}

impl TryFrom<Option<u32>> for ExternRef {
    type Error = &'static str;

    fn try_from(val: Option<u32>) -> (r: Result<Self, Self::Error>) {
        let val = match val {
            None => return Ok(ExternRef::none()),
            Some(val) => val,
        };
        <ExternRef as TryFrom<u32>>::try_from(val)
    }
}

impl TryFromSpecImpl<Option<u32>> for ExternRef {
    open spec fn obeys_try_from_spec() -> bool {
        true
    }

    /// No target is the null reference; any other target is taken as `u32` is.
    open spec fn try_from_spec(val: Option<u32>) -> Result<Self, &'static str> {
        match val {
            None => Ok(ExternRef::spec_from_word(u32::MAX)),
            Some(v) => <ExternRef as TryFromSpec<u32>>::try_from_spec(v),
        }
    }
}

/// The two 4-byte words, least significant first, from which the device composes a 64-bit
/// integer constant.
pub fn i64_const_words(value: i64) -> (r: Vec<u32>)
    ensures
        r@ == le_words(le_encode((value as u64) as nat, 8)),
        r@.len() == 2,
{
    let bytes = write_le((value as u64) as u128, 8);
    proof {
        lemma_le_encode_len((value as u64) as nat, 8);
    }
    split_le_words(bytes.as_slice())
}

/// The four 4-byte words, least significant first, from which the device composes a 128-bit
/// vector constant.
pub fn v128_const_words(value: V128) -> (r: Vec<u32>)
    ensures
        r@ == le_words(le_encode(value@ as nat, 16)),
        r@.len() == 4,
{
    let bytes = value.to_le_bytes();
    proof {
        lemma_le_encode_len(value@ as nat, 16);
    }
    split_le_words(&bytes)
}

} // verus!
