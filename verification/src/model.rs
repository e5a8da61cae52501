use vstd::prelude::*;

use crate::error::GGUFError;
use crate::types::GGUfMetadataValueType;
use crate::types::HeaderView;
use crate::types::MetadataView;
use crate::types::ValueView;
use crate::types::type_of_code;

verus! {

/// The format's four magic bytes, ASCII "GGUF".
pub open spec fn magic_bytes() -> Seq<u8> {
    seq![0x47u8, 0x47u8, 0x55u8, 0x46u8]
}

/// The little-endian integer held by the two bytes at `pos`.
pub open spec fn spec_le16(data: Seq<u8>, pos: int) -> u16 {
    (data[pos] + data[pos + 1] * 0x100) as u16
}

/// The little-endian integer held by the four bytes at `pos`.
pub open spec fn spec_le32(data: Seq<u8>, pos: int) -> u32 {
    (data[pos] + data[pos + 1] * 0x100 + data[pos + 2] * 0x1_0000 + data[pos + 3]
        * 0x100_0000) as u32
}

/// The little-endian integer held by the eight bytes at `pos`.
pub open spec fn spec_le64(data: Seq<u8>, pos: int) -> u64 {
    (data[pos] + data[pos + 1] * 0x100 + data[pos + 2] * 0x1_0000 + data[pos + 3] * 0x100_0000
        + data[pos + 4] * 0x1_0000_0000 + data[pos + 5] * 0x100_0000_0000 + data[pos + 6]
        * 0x1_0000_0000_0000 + data[pos + 7] * 0x100_0000_0000_0000) as u64
}

/// What `String::from_utf8` returns on these bytes: their decoding when
/// they are valid UTF-8, and nothing otherwise.
pub uninterp spec fn utf8_decode(bytes: Seq<u8>) -> Option<Seq<char>>;

/// Decoding of a 4-byte little-endian type tag at `pos`.
pub open spec fn spec_decode_tag(data: Seq<u8>, pos: int) -> Result<
    (GGUfMetadataValueType, int),
    GGUFError,
> {
    if pos + 4 > data.len() {
        Err(GGUFError::UnexpectedEof)
    } else {
        match type_of_code(spec_le32(data, pos)) {
            Some(t) => Ok((t, pos + 4)),
            None => Err(GGUFError::UnknownTypeTag(spec_le32(data, pos))),
        }
    }
}

/// Decoding of a length-prefixed UTF-8 string at `pos`: an 8-byte
/// little-endian length, then that many bytes, which must be valid UTF-8.
pub open spec fn spec_decode_string(data: Seq<u8>, pos: int) -> Result<(Seq<char>, int), GGUFError> {
    if pos + 8 > data.len() {
        Err(GGUFError::UnexpectedEof)
    } else {
        let n = spec_le64(data, pos) as int;
        if pos + 8 + n > data.len() {
            Err(GGUFError::UnexpectedEof)
        } else {
            match utf8_decode(data.subrange(pos + 8, pos + 8 + n)) {
                Some(s) => Ok((s, pos + 8 + n)),
                None => Err(GGUFError::InvalidUtf8),
            }
        }
    }
}

/// Decoding of one value of type `t` at `pos`.
pub open spec fn spec_decode_value(data: Seq<u8>, pos: int, t: GGUfMetadataValueType) -> Result<
    (ValueView, int),
    GGUFError,
>
    decreases data.len() - pos, 0int,
{
    match t {
        GGUfMetadataValueType::Uint8 => if pos + 1 > data.len() {
            Err(GGUFError::UnexpectedEof)
        } else {
            Ok((ValueView::Uint8(data[pos]), pos + 1))
        },
        GGUfMetadataValueType::Int8 => if pos + 1 > data.len() {
            Err(GGUFError::UnexpectedEof)
        } else {
            Ok((ValueView::Int8(data[pos] as i8), pos + 1))
        },
        GGUfMetadataValueType::Uint16 => if pos + 2 > data.len() {
            Err(GGUFError::UnexpectedEof)
        } else {
            Ok((ValueView::Uint16(spec_le16(data, pos)), pos + 2))
        },
        GGUfMetadataValueType::Int16 => if pos + 2 > data.len() {
            Err(GGUFError::UnexpectedEof)
        } else {
            Ok((ValueView::Int16(spec_le16(data, pos) as i16), pos + 2))
        },
        GGUfMetadataValueType::Uint32 => if pos + 4 > data.len() {
            Err(GGUFError::UnexpectedEof)
        } else {
            Ok((ValueView::Uint32(spec_le32(data, pos)), pos + 4))
        },
        GGUfMetadataValueType::Int32 => if pos + 4 > data.len() {
            Err(GGUFError::UnexpectedEof)
        } else {
            Ok((ValueView::Int32(spec_le32(data, pos) as i32), pos + 4))
        },
        GGUfMetadataValueType::Float32 => if pos + 4 > data.len() {
            Err(GGUFError::UnexpectedEof)
        } else {
            Ok((ValueView::Float32(spec_le32(data, pos)), pos + 4))
        },
        GGUfMetadataValueType::Uint64 => if pos + 8 > data.len() {
            Err(GGUFError::UnexpectedEof)
        } else {
            Ok((ValueView::Uint64(spec_le64(data, pos)), pos + 8))
        },
        GGUfMetadataValueType::Int64 => if pos + 8 > data.len() {
            Err(GGUFError::UnexpectedEof)
        } else {
            Ok((ValueView::Int64(spec_le64(data, pos) as i64), pos + 8))
        },
        GGUfMetadataValueType::Float64 => if pos + 8 > data.len() {
            Err(GGUFError::UnexpectedEof)
        } else {
            Ok((ValueView::Float64(spec_le64(data, pos)), pos + 8))
        },
        GGUfMetadataValueType::Bool => if pos + 1 > data.len() {
            Err(GGUFError::UnexpectedEof)
        } else if data[pos] == 0 {
            Ok((ValueView::Bool(false), pos + 1))
        } else if data[pos] == 1 {
            Ok((ValueView::Bool(true), pos + 1))
        } else {
            Err(GGUFError::InvalidBool(data[pos]))
        },
        GGUfMetadataValueType::String => match spec_decode_string(data, pos) {
            Ok((s, p2)) => Ok((ValueView::String(s), p2)),
            Err(e) => Err(e),
        },
        GGUfMetadataValueType::Array => match spec_decode_tag(data, pos) {
            Ok((et, p1)) => if p1 + 8 > data.len() {
                Err(GGUFError::UnexpectedEof)
            } else {
                match spec_decode_elems(data, p1 + 8, et, spec_le64(data, p1) as nat) {
                    Ok((vs, p2)) => Ok((ValueView::Array(vs), p2)),
                    Err(e) => Err(e),
                }
            },
            Err(e) => Err(e),
        },
    }
}

/// Decoding of `n` consecutive values of type `t` starting at `pos`.
///
/// A successful value decode always lands strictly past where it started
/// and inside the buffer (`lemma_decode_value_advances`), so the bounds
/// test on `p2` below never fails; it is what lets the recursion be seen
/// to terminate.
pub open spec fn spec_decode_elems(
    data: Seq<u8>,
    pos: int,
    t: GGUfMetadataValueType,
    n: nat,
) -> Result<(Seq<ValueView>, int), GGUFError>
    decreases data.len() - pos, n,
{
    if n == 0 {
        Ok((Seq::empty(), pos))
    } else {
        match spec_decode_value(data, pos, t) {
            Ok((v, p2)) => if pos < p2 <= data.len() {
                match spec_decode_elems(data, p2, t, (n - 1) as nat) {
                    Ok((vs, p3)) => Ok((seq![v] + vs, p3)),
                    Err(e) => Err(e),
                }
            } else {
                Err(GGUFError::UnexpectedEof)
            },
            Err(e) => Err(e),
        }
    }
}

/// Decoding of one metadata record at `pos`: key, type tag, then the value
/// of that type.
pub open spec fn spec_decode_entry(data: Seq<u8>, pos: int) -> Result<(MetadataView, int), GGUFError> {
    match spec_decode_string(data, pos) {
        Ok((key, p1)) => match spec_decode_tag(data, p1) {
            Ok((t, p2)) => match spec_decode_value(data, p2, t) {
                Ok((v, p3)) => Ok((MetadataView { key, value_type: t, value: v }, p3)),
                Err(e) => Err(e),
            },
            Err(e) => Err(e),
        },
        Err(e) => Err(e),
    }
}

/// Decoding of `n` consecutive metadata records starting at `pos`.
pub open spec fn spec_decode_entries(data: Seq<u8>, pos: int, n: nat) -> Result<
    (Seq<MetadataView>, int),
    GGUFError,
>
    decreases n,
{
    if n == 0 {
        Ok((Seq::empty(), pos))
    } else {
        match spec_decode_entry(data, pos) {
            Ok((m, p2)) => match spec_decode_entries(data, p2, (n - 1) as nat) {
                Ok((ms, p3)) => Ok((seq![m] + ms, p3)),
                Err(e) => Err(e),
            },
            Err(e) => Err(e),
        }
    }
}

/// Decoding of a whole header from the start of the buffer: the magic
/// marker, the version, the tensor count, and then exactly as many
/// metadata records as the metadata count declares.
pub open spec fn spec_decode_header(data: Seq<u8>) -> Result<(HeaderView, int), GGUFError> {
    if data.len() < 4 {
        Err(GGUFError::UnexpectedEof)
    } else if data.subrange(0, 4) != magic_bytes() {
        Err(GGUFError::BadMagic)
    } else if data.len() < 24 {
        Err(GGUFError::UnexpectedEof)
    } else {
        match spec_decode_entries(data, 24, spec_le64(data, 16) as nat) {
            Ok((ms, p)) => Ok(
                (
                    HeaderView {
                        version: spec_le32(data, 4),
                        tensor_count: spec_le64(data, 8),
                        metadata: ms,
                    },
                    p,
                ),
            ),
            Err(e) => Err(e),
        }
    }
}

} // verus!
