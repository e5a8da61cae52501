use gguf::decode::gguf_string;
use gguf::decode::magic;
use gguf::decode::parse_gguf_metadata_value;
use gguf::decode::parse_gguf_metadata_value_type;
use gguf::decode::read_u16_le;
use gguf::decode::read_u32_le;
use gguf::decode::read_u64_le;
use gguf::GGUFError;
use gguf::GGUFMetadataValue;
use gguf::GGUfMetadataValueType;

#[test]
fn parse_magic() {
    let data = &[0x47, 0x47, 0x55, 0x46];
    let result = magic(data, 0);
    assert_eq!(result, Ok(4));
}

#[test]
fn magic_too_short() {
    let data = &[0x47, 0x47, 0x55];
    assert_eq!(magic(data, 0), Err(GGUFError::UnexpectedEof));
}

#[test]
fn little_endian_values() {
    let data = &[0x34, 0x12, 0x78, 0x56, 0xEF, 0xCD, 0xAB, 0x89, 0x01];
    assert_eq!(read_u16_le(data, 0), Ok((0x1234, 2)));
    assert_eq!(read_u32_le(data, 0), Ok((0x56781234, 4)));
    assert_eq!(read_u64_le(data, 0), Ok((0x89ABCDEF56781234, 8)));
    assert_eq!(read_u64_le(data, 2), Err(GGUFError::UnexpectedEof));
}

#[test]
fn type_tag_table() {
    let expected = [
        GGUfMetadataValueType::Uint8,
        GGUfMetadataValueType::Int8,
        GGUfMetadataValueType::Uint16,
        GGUfMetadataValueType::Int16,
        GGUfMetadataValueType::Uint32,
        GGUfMetadataValueType::Int32,
        GGUfMetadataValueType::Float32,
        GGUfMetadataValueType::Bool,
        GGUfMetadataValueType::String,
        GGUfMetadataValueType::Array,
        GGUfMetadataValueType::Uint64,
        GGUfMetadataValueType::Int64,
        GGUfMetadataValueType::Float64,
    ];
    for (code, t) in expected.iter().enumerate() {
        assert_eq!(GGUfMetadataValueType::try_from(code as u32), Ok(*t));
    }
    assert_eq!(
        GGUfMetadataValueType::try_from(13),
        Err(GGUFError::UnknownTypeTag(13))
    );
    assert_eq!(
        GGUfMetadataValueType::try_from(0xDEAD),
        Err(GGUFError::UnknownTypeTag(0xDEAD))
    );
}

#[test]
fn unknown_tag_in_stream() {
    let data = &[0x0D, 0x00, 0x00, 0x00];
    assert_eq!(
        parse_gguf_metadata_value_type(data, 0),
        Err(GGUFError::UnknownTypeTag(13))
    );
}

/// Every fixed-width type consumes exactly its width, with a trailing byte
/// left untouched.
#[test]
fn scalar_widths() {
    let cases = [
        (GGUfMetadataValueType::Uint8, 1),
        (GGUfMetadataValueType::Int8, 1),
        (GGUfMetadataValueType::Uint16, 2),
        (GGUfMetadataValueType::Int16, 2),
        (GGUfMetadataValueType::Uint32, 4),
        (GGUfMetadataValueType::Int32, 4),
        (GGUfMetadataValueType::Float32, 4),
        (GGUfMetadataValueType::Bool, 1),
        (GGUfMetadataValueType::Uint64, 8),
        (GGUfMetadataValueType::Int64, 8),
        (GGUfMetadataValueType::Float64, 8),
    ];
    for (t, width) in cases.iter() {
        let buf = vec![0x01u8; width + 1];
        let (_, consumed) = parse_gguf_metadata_value(&buf, 0, *t).unwrap();
        assert_eq!(consumed, *width);
    }
}

#[test]
fn scalar_values() {
    let data = &[0xFF, 0xFE, 0xFD, 0xFC, 0xFB, 0xFA, 0xF9, 0xF8, 0x00];
    assert_eq!(
        parse_gguf_metadata_value(data, 0, GGUfMetadataValueType::Uint8),
        Ok((GGUFMetadataValue::Uint8(0xFF), 1))
    );
    assert_eq!(
        parse_gguf_metadata_value(data, 0, GGUfMetadataValueType::Int8),
        Ok((GGUFMetadataValue::Int8(-1), 1))
    );
    assert_eq!(
        parse_gguf_metadata_value(data, 0, GGUfMetadataValueType::Uint16),
        Ok((GGUFMetadataValue::Uint16(0xFEFF), 2))
    );
    assert_eq!(
        parse_gguf_metadata_value(data, 0, GGUfMetadataValueType::Int16),
        Ok((GGUFMetadataValue::Int16(-0x0101), 2))
    );
    assert_eq!(
        parse_gguf_metadata_value(data, 0, GGUfMetadataValueType::Uint32),
        Ok((GGUFMetadataValue::Uint32(0xFCFDFEFF), 4))
    );
    assert_eq!(
        parse_gguf_metadata_value(data, 0, GGUfMetadataValueType::Int32),
        Ok((GGUFMetadataValue::Int32(-0x03020101), 4))
    );
    assert_eq!(
        parse_gguf_metadata_value(data, 0, GGUfMetadataValueType::Uint64),
        Ok((GGUFMetadataValue::Uint64(0xF8F9FAFBFCFDFEFF), 8))
    );
    assert_eq!(
        parse_gguf_metadata_value(data, 0, GGUfMetadataValueType::Int64),
        Ok((GGUFMetadataValue::Int64(-0x0706050403020101), 8))
    );
}

/// The two float shapes carry the raw little-endian bit pattern.
#[test]
fn float_bit_patterns() {
    let data = &[0xAC, 0xC5, 0x27, 0x37, 0x00];
    let (v, consumed) =
        parse_gguf_metadata_value(data, 0, GGUfMetadataValueType::Float32).unwrap();
    assert_eq!(consumed, 4);
    match v {
        GGUFMetadataValue::Float32(bits) => {
            assert_eq!(bits, 0x3727C5AC);
            assert_eq!(f32::from_bits(bits), 1.0e-5_f32);
        }
        other => panic!("expected a Float32, got {:?}", other),
    }
    let data64 = &[0x00, 0x00, 0x00, 0x00, 0x00, 0x00, 0xF0, 0x3F];
    let (v64, consumed64) =
        parse_gguf_metadata_value(data64, 0, GGUfMetadataValueType::Float64).unwrap();
    assert_eq!(consumed64, 8);
    match v64 {
        GGUFMetadataValue::Float64(bits) => {
            assert_eq!(f64::from_bits(bits), 1.0_f64);
        }
        other => panic!("expected a Float64, got {:?}", other),
    }
}

#[test]
fn bool_values() {
    assert_eq!(
        parse_gguf_metadata_value(&[0x00], 0, GGUfMetadataValueType::Bool),
        Ok((GGUFMetadataValue::Bool(false), 1))
    );
    assert_eq!(
        parse_gguf_metadata_value(&[0x01], 0, GGUfMetadataValueType::Bool),
        Ok((GGUFMetadataValue::Bool(true), 1))
    );
}

/// Every byte other than 0 and 1 fails a boolean field with InvalidBool.
#[test]
fn invalid_bool_every_other_byte() {
    for b in 2..=255u8 {
        assert_eq!(
            parse_gguf_metadata_value(&[b], 0, GGUfMetadataValueType::Bool),
            Err(GGUFError::InvalidBool(b))
        );
    }
}

#[test]
fn string_decoding() {
    let data = &[
        0x05, 0x00, 0x00, 0x00, 0x00, 0x00, 0x00, 0x00, b'l', b'l', b'a', b'm', b'a', 0xAA,
    ];
    assert_eq!(gguf_string(data, 0), Ok(("llama".to_string(), 13)));
}

/// A multi-byte UTF-8 sequence comes back as the decoded text, not as the
/// raw bytes.
#[test]
fn string_non_ascii() {
    let data = &[0x02, 0x00, 0x00, 0x00, 0x00, 0x00, 0x00, 0x00, 0xC3, 0xA9];
    let (s, consumed) = gguf_string(data, 0).unwrap();
    assert_eq!(s, "\u{e9}");
    assert_eq!(s.chars().count(), 1);
    assert_eq!(consumed, 10);
}

#[test]
fn string_invalid_utf8() {
    let data = &[0x01, 0x00, 0x00, 0x00, 0x00, 0x00, 0x00, 0x00, 0xFF];
    assert_eq!(gguf_string(data, 0), Err(GGUFError::InvalidUtf8));
}

/// A declared length past the end of the buffer is an UnexpectedEof, found
/// before any string byte is read.
#[test]
fn string_truncated() {
    let data = &[0x0A, 0x00, 0x00, 0x00, 0x00, 0x00, 0x00, 0x00, b'a', b'b'];
    assert_eq!(gguf_string(data, 0), Err(GGUFError::UnexpectedEof));
    assert_eq!(
        parse_gguf_metadata_value(data, 0, GGUfMetadataValueType::String),
        Err(GGUFError::UnexpectedEof)
    );
}

/// An array declaring zero elements consumes exactly its 12 tag-and-count
/// bytes, whatever the element type.
#[test]
fn empty_array() {
    for elem_tag in [0x00u8, 0x07, 0x08, 0x09, 0x0C] {
        let mut buf = vec![elem_tag, 0x00, 0x00, 0x00];
        buf.extend_from_slice(&[0x00; 8]);
        buf.push(0xEE);
        assert_eq!(
            parse_gguf_metadata_value(&buf, 0, GGUfMetadataValueType::Array),
            Ok((GGUFMetadataValue::Array(vec![]), 12))
        );
    }
}

/// N fixed-width elements of width W consume exactly 4 + 8 + N * W bytes.
#[test]
fn array_of_fixed_width_elements() {
    let mut buf = vec![0x04, 0x00, 0x00, 0x00];
    buf.extend_from_slice(&[0x03, 0x00, 0x00, 0x00, 0x00, 0x00, 0x00, 0x00]);
    for x in [7u32, 8, 9] {
        buf.extend_from_slice(&x.to_le_bytes());
    }
    let (v, consumed) = parse_gguf_metadata_value(&buf, 0, GGUfMetadataValueType::Array).unwrap();
    assert_eq!(consumed, 4 + 8 + 3 * 4);
    assert_eq!(
        v,
        GGUFMetadataValue::Array(vec![
            GGUFMetadataValue::Uint32(7),
            GGUFMetadataValue::Uint32(8),
            GGUFMetadataValue::Uint32(9),
        ])
    );
}

/// Arrays nest: an array's element type may itself be Array.
#[test]
fn array_of_arrays() {
    let mut buf = vec![0x09, 0x00, 0x00, 0x00];
    buf.extend_from_slice(&[0x01, 0x00, 0x00, 0x00, 0x00, 0x00, 0x00, 0x00]);
    buf.extend_from_slice(&[0x00, 0x00, 0x00, 0x00]);
    buf.extend_from_slice(&[0x02, 0x00, 0x00, 0x00, 0x00, 0x00, 0x00, 0x00]);
    buf.extend_from_slice(&[0x2A, 0x2B]);
    let (v, consumed) = parse_gguf_metadata_value(&buf, 0, GGUfMetadataValueType::Array).unwrap();
    assert_eq!(consumed, buf.len());
    assert_eq!(
        v,
        GGUFMetadataValue::Array(vec![GGUFMetadataValue::Array(vec![
            GGUFMetadataValue::Uint8(0x2A),
            GGUFMetadataValue::Uint8(0x2B),
        ])])
    );
}

#[test]
fn array_element_failure_propagates() {
    let mut buf = vec![0x07, 0x00, 0x00, 0x00];
    buf.extend_from_slice(&[0x02, 0x00, 0x00, 0x00, 0x00, 0x00, 0x00, 0x00]);
    buf.extend_from_slice(&[0x01, 0x05]);
    assert_eq!(
        parse_gguf_metadata_value(&buf, 0, GGUfMetadataValueType::Array),
        Err(GGUFError::InvalidBool(5))
    );
}

#[test]
fn eof_on_empty_input() {
    let data: &[u8] = &[];
    assert_eq!(
        parse_gguf_metadata_value(data, 0, GGUfMetadataValueType::Uint8),
        Err(GGUFError::UnexpectedEof)
    );
    assert_eq!(
        parse_gguf_metadata_value(data, 0, GGUfMetadataValueType::Array),
        Err(GGUFError::UnexpectedEof)
    );
    assert_eq!(gguf_string(data, 0), Err(GGUFError::UnexpectedEof));
}
