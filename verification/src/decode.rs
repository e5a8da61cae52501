use vstd::prelude::*;

use crate::error::GGUFError;
use crate::model::magic_bytes;
use crate::model::spec_decode_elems;
use crate::model::spec_decode_entries;
use crate::model::spec_decode_entry;
use crate::model::spec_decode_header;
use crate::model::spec_decode_string;
use crate::model::spec_decode_tag;
use crate::model::spec_decode_value;
use crate::model::spec_le16;
use crate::model::spec_le32;
use crate::model::spec_le64;
use crate::model::utf8_decode;
use crate::types::GGUFHeader;
use crate::types::GGUFMetadata;
use crate::types::GGUFMetadataValue;
use crate::types::GGUfMetadataValueType;
use crate::types::HeaderView;
use crate::types::MetadataView;
use crate::types::ValueView;
use crate::types::entry_views;
use crate::types::lemma_views_of_push;
use crate::types::views_of;

verus! {

/// Reads the byte at `pos`.
pub fn read_u8(data: &[u8], pos: usize) -> (r: Result<(u8, usize), GGUFError>)
    ensures
        match r {
            Ok((v, p2)) => pos + 1 <= data@.len() && v == data@[pos as int] && p2 == pos + 1,
            Err(e) => pos + 1 > data@.len() && e == GGUFError::UnexpectedEof,
        },
{
    if pos < data.len() {
        Ok((*vstd::slice::slice_index_get(data, pos), pos + 1))
    } else {
        Err(GGUFError::UnexpectedEof)
    }
}

/// Reads the little-endian 16-bit integer at `pos`.
pub fn read_u16_le(data: &[u8], pos: usize) -> (r: Result<(u16, usize), GGUFError>)
    ensures
        match r {
            Ok((v, p2)) => pos + 2 <= data@.len() && v == spec_le16(data@, pos as int) && p2 == pos
                + 2,
            Err(e) => pos + 2 > data@.len() && e == GGUFError::UnexpectedEof,
        },
{
    if pos < data.len() && data.len() - pos >= 2 {
        let b0 = *vstd::slice::slice_index_get(data, pos) as u16;
        let b1 = *vstd::slice::slice_index_get(data, pos + 1) as u16;
        Ok((b0 + b1 * 0x100, pos + 2))
    } else {
        Err(GGUFError::UnexpectedEof)
    }
}

/// Reads the little-endian 32-bit integer at `pos`.
pub fn read_u32_le(data: &[u8], pos: usize) -> (r: Result<(u32, usize), GGUFError>)
    ensures
        match r {
            Ok((v, p2)) => pos + 4 <= data@.len() && v == spec_le32(data@, pos as int) && p2 == pos
                + 4,
            Err(e) => pos + 4 > data@.len() && e == GGUFError::UnexpectedEof,
        },
{
    if pos < data.len() && data.len() - pos >= 4 {
        let b0 = *vstd::slice::slice_index_get(data, pos) as u32;
        let b1 = *vstd::slice::slice_index_get(data, pos + 1) as u32;
        let b2 = *vstd::slice::slice_index_get(data, pos + 2) as u32;
        let b3 = *vstd::slice::slice_index_get(data, pos + 3) as u32;
        Ok((b0 + b1 * 0x100 + b2 * 0x1_0000 + b3 * 0x100_0000, pos + 4))
    } else {
        Err(GGUFError::UnexpectedEof)
    }
}

/// Reads the little-endian 64-bit integer at `pos`.
pub fn read_u64_le(data: &[u8], pos: usize) -> (r: Result<(u64, usize), GGUFError>)
    ensures
        match r {
            Ok((v, p2)) => pos + 8 <= data@.len() && v == spec_le64(data@, pos as int) && p2 == pos
                + 8,
            Err(e) => pos + 8 > data@.len() && e == GGUFError::UnexpectedEof,
        },
{
    if pos < data.len() && data.len() - pos >= 8 {
        let b0 = *vstd::slice::slice_index_get(data, pos) as u64;
        let b1 = *vstd::slice::slice_index_get(data, pos + 1) as u64;
        let b2 = *vstd::slice::slice_index_get(data, pos + 2) as u64;
        let b3 = *vstd::slice::slice_index_get(data, pos + 3) as u64;
        let b4 = *vstd::slice::slice_index_get(data, pos + 4) as u64;
        let b5 = *vstd::slice::slice_index_get(data, pos + 5) as u64;
        let b6 = *vstd::slice::slice_index_get(data, pos + 6) as u64;
        let b7 = *vstd::slice::slice_index_get(data, pos + 7) as u64;
        let v = b0 + b1 * 0x100 + b2 * 0x1_0000 + b3 * 0x100_0000 + b4 * 0x1_0000_0000 + b5
            * 0x100_0000_0000 + b6 * 0x1_0000_0000_0000 + b7 * 0x100_0000_0000_0000;
        Ok((v, pos + 8))
    } else {
        Err(GGUFError::UnexpectedEof)
    }
}

/// Checks the four magic bytes at `pos` and steps past them.
pub fn magic(data: &[u8], pos: usize) -> (r: Result<usize, GGUFError>)
    ensures
        match r {
            Ok(p2) => p2 == pos + 4 && pos + 4 <= data@.len() && data@.subrange(
                pos as int,
                pos as int + 4,
            ) == magic_bytes(),
            Err(e) => (e == GGUFError::UnexpectedEof && pos + 4 > data@.len()) || (e
                == GGUFError::BadMagic && pos + 4 <= data@.len() && data@.subrange(
                pos as int,
                pos as int + 4,
            ) != magic_bytes()),
        },
{
    if !(pos < data.len() && data.len() - pos >= 4) {
        return Err(GGUFError::UnexpectedEof);
    }
    let b0 = *vstd::slice::slice_index_get(data, pos);
    let b1 = *vstd::slice::slice_index_get(data, pos + 1);
    let b2 = *vstd::slice::slice_index_get(data, pos + 2);
    let b3 = *vstd::slice::slice_index_get(data, pos + 3);
    if b0 == 0x47 && b1 == 0x47 && b2 == 0x55 && b3 == 0x46 {
        proof {
            assert(data@.subrange(pos as int, pos as int + 4) =~= magic_bytes());
        }
        Ok(pos + 4)
    } else {
        proof {
            assert(data@.subrange(pos as int, pos as int + 4) != magic_bytes()) by {
                let s = data@.subrange(pos as int, pos as int + 4);
                assert(s[0] == b0 && s[1] == b1 && s[2] == b2 && s[3] == b3);
            }
        }
        Err(GGUFError::BadMagic)
    }
}

/// Relies on `String::from_utf8`: it returns the UTF-8 decoding of the
/// given bytes when they are valid UTF-8, and nothing otherwise.
#[verifier::external_body]
fn utf8_to_string(bytes: Vec<u8>) -> (r: Option<String>)
    ensures
        match r {
            Some(s) => utf8_decode(bytes@) == Some(s@),
            None => utf8_decode(bytes@) is None,
        },
{
    String::from_utf8(bytes).ok()
}

/// Decodes a length-prefixed UTF-8 string at `pos`.
pub fn gguf_string(data: &[u8], pos: usize) -> (r: Result<(String, usize), GGUFError>)
    ensures
        match r {
            Ok((s, p2)) => pos < p2 <= data@.len() && spec_decode_string(data@, pos as int)
                == Ok::<_, GGUFError>((s@, p2 as int)),
            Err(e) => spec_decode_string(data@, pos as int) == Err::<(Seq<char>, int), _>(e),
        },
{
    let (n, p1) = match read_u64_le(data, pos) {
        Ok(x) => x,
        Err(e) => { return Err(e) },
    };
    let rem = data.len() - p1;
    if n > rem as u64 {
        return Err(GGUFError::UnexpectedEof);
    }
    let end = p1 + n as usize;
    let bytes = vstd::slice::slice_subrange(data, p1, end);
    match utf8_to_string(vstd::slice::slice_to_vec(bytes)) {
        Some(s) => Ok((s, end)),
        None => Err(GGUFError::InvalidUtf8),
    }
}

/// Decodes the 4-byte type tag at `pos`.
pub fn parse_gguf_metadata_value_type(data: &[u8], pos: usize) -> (r: Result<
    (GGUfMetadataValueType, usize),
    GGUFError,
>)
    ensures
        match r {
            Ok((t, p2)) => p2 == pos + 4 && spec_decode_tag(data@, pos as int) == Ok::<
                _,
                GGUFError,
            >((t, p2 as int)),
            Err(e) => spec_decode_tag(data@, pos as int) == Err::<(GGUfMetadataValueType, int), _>(
                e,
            ),
        },
{
    let (code, p2) = match read_u32_le(data, pos) {
        Ok(x) => x,
        Err(e) => { return Err(e) },
    };
    match GGUfMetadataValueType::try_from(code) {
        Ok(t) => Ok((t, p2)),
        Err(e) => Err(e),
    }
}

/// Decodes one value of type `value_type` at `pos`; for an array this
/// recurses into the declared element type.
pub fn parse_gguf_metadata_value(
    data: &[u8],
    pos: usize,
    value_type: GGUfMetadataValueType,
) -> (r: Result<(GGUFMetadataValue, usize), GGUFError>)
    ensures
        match r {
            Ok((v, p2)) => pos < p2 <= data@.len() && spec_decode_value(
                data@,
                pos as int,
                value_type,
            ) == Ok::<_, GGUFError>((v@, p2 as int)),
            Err(e) => spec_decode_value(data@, pos as int, value_type) == Err::<
                (ValueView, int),
                _,
            >(e),
        },
    decreases data@.len() - pos,
{
    match value_type {
        GGUfMetadataValueType::Uint8 => match read_u8(data, pos) {
            Ok((b, p)) => Ok((GGUFMetadataValue::Uint8(b), p)),
            Err(e) => Err(e),
        },
        GGUfMetadataValueType::Int8 => match read_u8(data, pos) {
            Ok((b, p)) => Ok((GGUFMetadataValue::Int8(#[verifier::truncate] (b as i8)), p)),
            Err(e) => Err(e),
        },
        GGUfMetadataValueType::Uint16 => match read_u16_le(data, pos) {
            Ok((v, p)) => Ok((GGUFMetadataValue::Uint16(v), p)),
            Err(e) => Err(e),
        },
        GGUfMetadataValueType::Int16 => match read_u16_le(data, pos) {
            Ok((v, p)) => Ok((GGUFMetadataValue::Int16(#[verifier::truncate] (v as i16)), p)),
            Err(e) => Err(e),
        },
        GGUfMetadataValueType::Uint32 => match read_u32_le(data, pos) {
            Ok((v, p)) => Ok((GGUFMetadataValue::Uint32(v), p)),
            Err(e) => Err(e),
        },
        GGUfMetadataValueType::Int32 => match read_u32_le(data, pos) {
            Ok((v, p)) => Ok((GGUFMetadataValue::Int32(#[verifier::truncate] (v as i32)), p)),
            Err(e) => Err(e),
        },
        GGUfMetadataValueType::Float32 => match read_u32_le(data, pos) {
            Ok((v, p)) => Ok((GGUFMetadataValue::Float32(v), p)),
            Err(e) => Err(e),
        },
        GGUfMetadataValueType::Uint64 => match read_u64_le(data, pos) {
            Ok((v, p)) => Ok((GGUFMetadataValue::Uint64(v), p)),
            Err(e) => Err(e),
        },
        GGUfMetadataValueType::Int64 => match read_u64_le(data, pos) {
            Ok((v, p)) => Ok((GGUFMetadataValue::Int64(#[verifier::truncate] (v as i64)), p)),
            Err(e) => Err(e),
        },
        GGUfMetadataValueType::Float64 => match read_u64_le(data, pos) {
            Ok((v, p)) => Ok((GGUFMetadataValue::Float64(v), p)),
            Err(e) => Err(e),
        },
        GGUfMetadataValueType::Bool => match read_u8(data, pos) {
            Ok((b, p)) => if b == 0 {
                Ok((GGUFMetadataValue::Bool(false), p))
            } else if b == 1 {
                Ok((GGUFMetadataValue::Bool(true), p))
            } else {
                Err(GGUFError::InvalidBool(b))
            },
            Err(e) => Err(e),
        },
        GGUfMetadataValueType::String => match gguf_string(data, pos) {
            Ok((s, p)) => Ok((GGUFMetadataValue::String(s), p)),
            Err(e) => Err(e),
        },
        GGUfMetadataValueType::Array => {
            let (et, p1) = match parse_gguf_metadata_value_type(data, pos) {
                Ok(x) => x,
                Err(e) => { return Err(e) },
            };
            let (n, p2) = match read_u64_le(data, p1) {
                Ok(x) => x,
                Err(e) => { return Err(e) },
            };
            let mut vals: Vec<GGUFMetadataValue> = Vec::new();
            let mut cur: usize = p2;
            let mut i: u64 = 0;
            proof {
                match spec_decode_elems(data@, p2 as int, et, n as nat) {
                    Ok((tail, q)) => {
                        assert(views_of(vals@) + tail =~= tail);
                    },
                    Err(_) => {},
                }
            }
            while i < n
                invariant
                    value_type == GGUfMetadataValueType::Array,
                    i <= n,
                    vals@.len() == i,
                    p1 == pos + 4,
                    p2 == pos + 12,
                    p2 <= data@.len(),
                    pos < cur <= data@.len(),
                    spec_decode_tag(data@, pos as int) == Ok::<_, GGUFError>((et, p1 as int)),
                    n == spec_le64(data@, p1 as int),
                    match spec_decode_elems(data@, cur as int, et, (n - i) as nat) {
                        Ok((tail, q)) => spec_decode_elems(data@, p2 as int, et, n as nat) == Ok::<
                            _,
                            GGUFError,
                        >((views_of(vals@) + tail, q)),
                        Err(e) => spec_decode_elems(data@, p2 as int, et, n as nat) == Err::<
                            (Seq<ValueView>, int),
                            GGUFError,
                        >(e),
                    },
                decreases n - i,
            {
                match parse_gguf_metadata_value(data, cur, et) {
                    Ok((v, c2)) => {
                        proof {
                            lemma_views_of_push(vals@, v);
                            match spec_decode_elems(data@, c2 as int, et, (n - i - 1) as nat) {
                                Ok((tail2, q)) => {
                                    assert(views_of(vals@) + (seq![v@] + tail2) =~= views_of(
                                        vals@,
                                    ).push(v@) + tail2);
                                },
                                Err(_) => {},
                            }
                        }
                        vals.push(v);
                        cur = c2;
                        i = i + 1;
                    },
                    Err(e) => { return Err(e) },
                }
            }
            proof {
                assert(views_of(vals@) + Seq::<ValueView>::empty() =~= views_of(vals@));
            }
            Ok((GGUFMetadataValue::Array(vals), cur))
        },
    }
}

/// Decodes one metadata record at `pos`: its key, its type tag, and then
/// its value at that type.  By construction the record's value has the
/// shape its declared type names.
pub fn parse_gguf_metadata(data: &[u8], pos: usize) -> (r: Result<(GGUFMetadata, usize), GGUFError>)
    ensures
        match r {
            Ok((m, p2)) => pos < p2 <= data@.len() && spec_decode_entry(data@, pos as int) == Ok::<
                _,
                GGUFError,
            >((m@, p2 as int)),
            Err(e) => spec_decode_entry(data@, pos as int) == Err::<(MetadataView, int), _>(e),
        },
{
    let (key, p1) = match gguf_string(data, pos) {
        Ok(x) => x,
        Err(e) => { return Err(e) },
    };
    let (value_type, p2) = match parse_gguf_metadata_value_type(data, p1) {
        Ok(x) => x,
        Err(e) => { return Err(e) },
    };
    let (value, p3) = match parse_gguf_metadata_value(data, p2, value_type) {
        Ok(x) => x,
        Err(e) => { return Err(e) },
    };
    Ok((GGUFMetadata { key, value_type, value }, p3))
}

/// Decodes a whole header from the start of the buffer: the magic marker,
/// the version, the tensor count, and then exactly as many metadata
/// records as the metadata count declares.  Returns the header and the
/// position of the first byte after it; trailing bytes are not touched.
pub fn parse_gguf_header(data: &[u8]) -> (r: Result<(GGUFHeader, usize), GGUFError>)
    ensures
        match r {
            Ok((h, p)) => p <= data@.len() && spec_decode_header(data@) == Ok::<_, GGUFError>(
                (h@, p as int),
            ),
            Err(e) => spec_decode_header(data@) == Err::<(HeaderView, int), _>(e),
        },
{
    let p0 = match magic(data, 0) {
        Ok(p) => p,
        Err(e) => { return Err(e) },
    };
    let (version, p1) = match read_u32_le(data, p0) {
        Ok(x) => x,
        Err(e) => { return Err(e) },
    };
    let (tensor_count, p2) = match read_u64_le(data, p1) {
        Ok(x) => x,
        Err(e) => { return Err(e) },
    };
    let (meta_count, p3) = match read_u64_le(data, p2) {
        Ok(x) => x,
        Err(e) => { return Err(e) },
    };
    let mut metadata: Vec<GGUFMetadata> = Vec::new();
    let mut cur: usize = p3;
    let mut i: u64 = 0;
    proof {
        match spec_decode_entries(data@, p3 as int, meta_count as nat) {
            Ok((tail, q)) => {
                assert(entry_views(metadata@) + tail =~= tail);
            },
            Err(_) => {},
        }
    }
    while i < meta_count
        invariant
            i <= meta_count,
            metadata@.len() == i,
            p3 == 24,
            24 <= cur <= data@.len(),
            data@.subrange(0, 4) == magic_bytes(),
            version == spec_le32(data@, 4),
            tensor_count == spec_le64(data@, 8),
            meta_count == spec_le64(data@, 16),
            match spec_decode_entries(data@, cur as int, (meta_count - i) as nat) {
                Ok((tail, q)) => spec_decode_entries(data@, 24, meta_count as nat) == Ok::<
                    _,
                    GGUFError,
                >((entry_views(metadata@) + tail, q)),
                Err(e) => spec_decode_entries(data@, 24, meta_count as nat) == Err::<
                    (Seq<MetadataView>, int),
                    GGUFError,
                >(e),
            },
        decreases meta_count - i,
    {
        match parse_gguf_metadata(data, cur) {
            Ok((m, c2)) => {
                proof {
                    assert(entry_views(metadata@.push(m)) =~= entry_views(metadata@).push(m@));
                    match spec_decode_entries(data@, c2 as int, (meta_count - i - 1) as nat) {
                        Ok((tail2, q)) => {
                            assert(entry_views(metadata@) + (seq![m@] + tail2) =~= entry_views(
                                metadata@,
                            ).push(m@) + tail2);
                        },
                        Err(_) => {},
                    }
                }
                metadata.push(m);
                cur = c2;
                i = i + 1;
            },
            Err(e) => { return Err(e) },
        }
    }
    proof {
        assert(entry_views(metadata@) + Seq::<MetadataView>::empty() =~= entry_views(metadata@));
    }
    Ok((GGUFHeader { version, tensor_count, metadata }, cur))
}

impl GGUFHeader {
    /// Decodes a complete header from the front of `data`.  Bytes after
    /// the last metadata record are ignored; any failure while decoding is
    /// returned as the specific error kind, and nothing panics.
    pub fn read(data: &[u8]) -> (r: Result<GGUFHeader, GGUFError>)
        ensures
            match r {
                Ok(h) => spec_decode_header(data@) matches Ok((hv, p)) && hv == h@,
                Err(e) => spec_decode_header(data@) == Err::<(HeaderView, int), GGUFError>(e),
            },
    {
        match parse_gguf_header(data) {
            Ok((h, _)) => Ok(h),
            Err(e) => Err(e),
        }
    }
}

} // verus!
