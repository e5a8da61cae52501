use vstd::prelude::*;

use crate::error::GGUFError;

verus! {

/// The thirteen value shapes a metadata record may carry.  Each is bound to
/// a fixed numeric code in the file format; `type_code` gives the binding.
#[derive(Debug, Clone, Copy, PartialEq, Eq, Structural)]
pub enum GGUfMetadataValueType {
    /// An 8-bit unsigned integer.
    Uint8,
    /// An 8-bit signed integer.
    Int8,
    /// A 16-bit unsigned little-endian integer.
    Uint16,
    /// A 16-bit signed little-endian integer.
    Int16,
    /// A 32-bit unsigned little-endian integer.
    Uint32,
    /// A 32-bit signed little-endian integer.
    Int32,
    /// A 32-bit IEEE 754 floating point number, kept as its bit pattern.
    Float32,
    /// A boolean, one byte, 0 or 1 only.
    Bool,
    /// A UTF-8 non-null-terminated string, with its length prepended.
    String,
    /// An array of values of a single element type, length and type prepended.
    Array,
    /// A 64-bit unsigned little-endian integer.
    Uint64,
    /// A 64-bit signed little-endian integer.
    Int64,
    /// A 64-bit IEEE 754 floating point number, kept as its bit pattern.
    Float64,
}

/// The numeric code that identifies `t` in the file.
pub open spec fn type_code(t: GGUfMetadataValueType) -> u32 {
    match t {
        GGUfMetadataValueType::Uint8 => 0,
        GGUfMetadataValueType::Int8 => 1,
        GGUfMetadataValueType::Uint16 => 2,
        GGUfMetadataValueType::Int16 => 3,
        GGUfMetadataValueType::Uint32 => 4,
        GGUfMetadataValueType::Int32 => 5,
        GGUfMetadataValueType::Float32 => 6,
        GGUfMetadataValueType::Bool => 7,
        GGUfMetadataValueType::String => 8,
        GGUfMetadataValueType::Array => 9,
        GGUfMetadataValueType::Uint64 => 10,
        GGUfMetadataValueType::Int64 => 11,
        GGUfMetadataValueType::Float64 => 12,
    }
}

/// The value type identified by code `c`, if the table has one.
pub open spec fn type_of_code(c: u32) -> Option<GGUfMetadataValueType> {
    match c {
        0u32 => Some(GGUfMetadataValueType::Uint8),
        1u32 => Some(GGUfMetadataValueType::Int8),
        2u32 => Some(GGUfMetadataValueType::Uint16),
        3u32 => Some(GGUfMetadataValueType::Int16),
        4u32 => Some(GGUfMetadataValueType::Uint32),
        5u32 => Some(GGUfMetadataValueType::Int32),
        6u32 => Some(GGUfMetadataValueType::Float32),
        7u32 => Some(GGUfMetadataValueType::Bool),
        8u32 => Some(GGUfMetadataValueType::String),
        9u32 => Some(GGUfMetadataValueType::Array),
        10u32 => Some(GGUfMetadataValueType::Uint64),
        11u32 => Some(GGUfMetadataValueType::Int64),
        12u32 => Some(GGUfMetadataValueType::Float64),
        _ => None,
    }
}

/// The fixed byte width of a scalar value type.  String and Array have no
/// fixed width; for them this returns 0.
pub open spec fn scalar_width(t: GGUfMetadataValueType) -> nat {
    match t {
        GGUfMetadataValueType::Uint8 => 1,
        GGUfMetadataValueType::Int8 => 1,
        GGUfMetadataValueType::Bool => 1,
        GGUfMetadataValueType::Uint16 => 2,
        GGUfMetadataValueType::Int16 => 2,
        GGUfMetadataValueType::Uint32 => 4,
        GGUfMetadataValueType::Int32 => 4,
        GGUfMetadataValueType::Float32 => 4,
        GGUfMetadataValueType::Uint64 => 8,
        GGUfMetadataValueType::Int64 => 8,
        GGUfMetadataValueType::Float64 => 8,
        GGUfMetadataValueType::String => 0,
        GGUfMetadataValueType::Array => 0,
    }
}

impl GGUfMetadataValueType {
    /// Resolves a raw 32-bit type code, rejecting codes outside the table.
    pub fn try_from(item: u32) -> (r: Result<GGUfMetadataValueType, GGUFError>)
        ensures
            match r {
                Ok(t) => type_of_code(item) == Some(t),
                Err(e) => type_of_code(item) is None && e == GGUFError::UnknownTypeTag(item),
            },
    {
        match item {
            0u32 => Ok(GGUfMetadataValueType::Uint8),
            1u32 => Ok(GGUfMetadataValueType::Int8),
            2u32 => Ok(GGUfMetadataValueType::Uint16),
            3u32 => Ok(GGUfMetadataValueType::Int16),
            4u32 => Ok(GGUfMetadataValueType::Uint32),
            5u32 => Ok(GGUfMetadataValueType::Int32),
            6u32 => Ok(GGUfMetadataValueType::Float32),
            7u32 => Ok(GGUfMetadataValueType::Bool),
            8u32 => Ok(GGUfMetadataValueType::String),
            9u32 => Ok(GGUfMetadataValueType::Array),
            10u32 => Ok(GGUfMetadataValueType::Uint64),
            11u32 => Ok(GGUfMetadataValueType::Int64),
            12u32 => Ok(GGUfMetadataValueType::Float64),
            _ => Err(GGUFError::UnknownTypeTag(item)),
        }
    }
}

/// A decoded metadata value.  Scalars hold exactly the width and signedness
/// their type tag declares; the two float shapes hold the raw IEEE 754 bit
/// pattern, which keeps the decoder free of floating-point arithmetic.
#[derive(Debug, PartialEq)]
pub enum GGUFMetadataValue {
    Uint8(u8),
    Int8(i8),
    Uint16(u16),
    Int16(i16),
    Uint32(u32),
    Int32(i32),
    Float32(u32),
    Uint64(u64),
    Int64(i64),
    Float64(u64),
    Bool(bool),
    String(String),
    Array(Vec<GGUFMetadataValue>),
}

/// The mathematical shape of a decoded value: machine integers and bit
/// patterns as themselves, text as a sequence of characters, an array as a
/// sequence of element views.
pub ghost enum ValueView {
    Uint8(u8),
    Int8(i8),
    Uint16(u16),
    Int16(i16),
    Uint32(u32),
    Int32(i32),
    Float32(u32),
    Uint64(u64),
    Int64(i64),
    Float64(u64),
    Bool(bool),
    String(Seq<char>),
    Array(Seq<ValueView>),
}

/// The view of a decoded value.
pub open spec fn value_view(v: GGUFMetadataValue) -> ValueView
    decreases v,
{
    match v {
        GGUFMetadataValue::Uint8(x) => ValueView::Uint8(x),
        GGUFMetadataValue::Int8(x) => ValueView::Int8(x),
        GGUFMetadataValue::Uint16(x) => ValueView::Uint16(x),
        GGUFMetadataValue::Int16(x) => ValueView::Int16(x),
        GGUFMetadataValue::Uint32(x) => ValueView::Uint32(x),
        GGUFMetadataValue::Int32(x) => ValueView::Int32(x),
        GGUFMetadataValue::Float32(x) => ValueView::Float32(x),
        GGUFMetadataValue::Uint64(x) => ValueView::Uint64(x),
        GGUFMetadataValue::Int64(x) => ValueView::Int64(x),
        GGUFMetadataValue::Float64(x) => ValueView::Float64(x),
        GGUFMetadataValue::Bool(x) => ValueView::Bool(x),
        GGUFMetadataValue::String(s) => ValueView::String(s@),
        GGUFMetadataValue::Array(vs) => ValueView::Array(views_of(vs@)),
    }
}

/// The element-wise views of a sequence of decoded values.
pub open spec fn views_of(s: Seq<GGUFMetadataValue>) -> Seq<ValueView>
    decreases s,
{
    if s.len() == 0 {
        Seq::empty()
    } else {
        seq![value_view(s[0])] + views_of(s.drop_first())
    }
}

/// Appending a value to a sequence appends its view to the sequence's views.
pub proof fn lemma_views_of_push(s: Seq<GGUFMetadataValue>, v: GGUFMetadataValue)
    ensures
        views_of(s.push(v)) == views_of(s).push(value_view(v)),
    decreases s.len(),
{
    if s.len() == 0 {
        assert(s.push(v).drop_first() =~= Seq::<GGUFMetadataValue>::empty());
        assert(seq![value_view(v)] + views_of(Seq::<GGUFMetadataValue>::empty()) =~= views_of(
            s,
        ).push(value_view(v)));
    } else {
        lemma_views_of_push(s.drop_first(), v);
        assert(s.push(v).drop_first() =~= s.drop_first().push(v));
        assert(s.push(v)[0] == s[0]);
        assert(seq![value_view(s[0])] + views_of(s.drop_first()).push(value_view(v)) =~= (
        seq![value_view(s[0])] + views_of(s.drop_first())).push(value_view(v)));
    }
}

impl View for GGUFMetadataValue {
    type V = ValueView;

    open spec fn view(&self) -> ValueView {
        value_view(*self)
    }
}

/// One metadata record: a key, the declared type of its value, and the
/// value itself.
#[derive(Debug, PartialEq)]
pub struct GGUFMetadata {
    pub key: String,
    pub value_type: GGUfMetadataValueType,
    pub value: GGUFMetadataValue,
}

/// The mathematical shape of a metadata record.
pub ghost struct MetadataView {
    pub key: Seq<char>,
    pub value_type: GGUfMetadataValueType,
    pub value: ValueView,
}

impl View for GGUFMetadata {
    type V = MetadataView;

    open spec fn view(&self) -> MetadataView {
        MetadataView { key: self.key@, value_type: self.value_type, value: self.value@ }
    }
}

/// The element-wise views of a sequence of metadata records.
pub open spec fn entry_views(s: Seq<GGUFMetadata>) -> Seq<MetadataView> {
    Seq::new(s.len(), |i: int| s[i]@)
}

/// A decoded header: format version, declared tensor count, and the
/// metadata records in file order.  Duplicate keys are kept, not merged.
#[derive(Debug, PartialEq)]
pub struct GGUFHeader {
    pub version: u32,
    pub tensor_count: u64,
    pub metadata: Vec<GGUFMetadata>,
}

/// The mathematical shape of a decoded header.
pub ghost struct HeaderView {
    pub version: u32,
    pub tensor_count: u64,
    pub metadata: Seq<MetadataView>,
}

impl View for GGUFHeader {
    type V = HeaderView;

    open spec fn view(&self) -> HeaderView {
        HeaderView {
            version: self.version,
            tensor_count: self.tensor_count,
            metadata: entry_views(self.metadata@),
        }
    }
}

/// Whether a value view has the shape its type tag declares.
pub open spec fn value_has_type(v: ValueView, t: GGUfMetadataValueType) -> bool {
    match t {
        GGUfMetadataValueType::Uint8 => v is Uint8,
        GGUfMetadataValueType::Int8 => v is Int8,
        GGUfMetadataValueType::Uint16 => v is Uint16,
        GGUfMetadataValueType::Int16 => v is Int16,
        GGUfMetadataValueType::Uint32 => v is Uint32,
        GGUfMetadataValueType::Int32 => v is Int32,
        GGUfMetadataValueType::Float32 => v is Float32,
        GGUfMetadataValueType::Bool => v is Bool,
        GGUfMetadataValueType::String => v is String,
        GGUfMetadataValueType::Array => v is Array,
        GGUfMetadataValueType::Uint64 => v is Uint64,
        GGUfMetadataValueType::Int64 => v is Int64,
        GGUfMetadataValueType::Float64 => v is Float64,
    }
}

} // verus!
