use vstd::prelude::*;

use crate::error::GGUFError;
use crate::model::magic_bytes;
use crate::model::spec_decode_elems;
use crate::model::spec_decode_entries;
use crate::model::spec_decode_entry;
use crate::model::spec_decode_header;
use crate::model::spec_decode_string;
use crate::model::spec_decode_tag;
use crate::model::spec_decode_value;
use crate::model::spec_le32;
use crate::model::spec_le64;
use crate::types::GGUfMetadataValueType;
use crate::types::HeaderView;
use crate::types::ValueView;
use crate::types::scalar_width;
use crate::types::type_of_code;
use crate::types::value_has_type;

verus! {

/// A successful value decode always consumes at least one byte and ends
/// inside the buffer; a successful run of element decodes never moves
/// backwards and yields one view per element.
pub proof fn lemma_decode_value_advances(data: Seq<u8>, pos: int, t: GGUfMetadataValueType)
    ensures
        spec_decode_value(data, pos, t) matches Ok((v, p2)) ==> pos < p2 <= data.len(),
    decreases data.len() - pos, 0int,
{
    if t is Array {
        match spec_decode_value(data, pos, t) {
            Ok((v, p2)) => {
                let et = spec_decode_tag(data, pos)->Ok_0.0;
                lemma_decode_elems_advance(data, pos + 12, et, spec_le64(data, pos + 4) as nat);
            },
            Err(_) => {},
        }
    }
}

/// Companion to `lemma_decode_value_advances` for a run of `n` elements.
pub proof fn lemma_decode_elems_advance(data: Seq<u8>, pos: int, t: GGUfMetadataValueType, n: nat)
    ensures
        spec_decode_elems(data, pos, t, n) matches Ok((vs, p)) ==> (pos <= p && vs.len() == n && (
        pos <= data.len() ==> p <= data.len())),
    decreases data.len() - pos, n,
{
    if n > 0 {
        match spec_decode_value(data, pos, t) {
            Ok((v, p2)) => {
                if pos < p2 <= data.len() {
                    lemma_decode_elems_advance(data, p2, t, (n - 1) as nat);
                }
            },
            Err(_) => {},
        }
    }
}

/// For every fixed-width type (all but String and Array), decoding
/// succeeds exactly when the type's width fits in the remaining bytes —
/// for booleans, when the byte is 0 or 1 besides — and a success consumes
/// exactly that width, however many bytes follow.
pub proof fn lemma_scalar_decode_width(data: Seq<u8>, pos: int, t: GGUfMetadataValueType)
    requires
        t != GGUfMetadataValueType::String,
        t != GGUfMetadataValueType::Array,
    ensures
        spec_decode_value(data, pos, t) is Ok <==> (pos + scalar_width(t) <= data.len() && (t
            == GGUfMetadataValueType::Bool ==> (data[pos] == 0 || data[pos] == 1))),
        spec_decode_value(data, pos, t) matches Ok((v, p2)) ==> p2 == pos + scalar_width(t),
{
}

/// A boolean byte other than 0 and 1 always fails with InvalidBool
/// carrying that byte.
pub proof fn lemma_invalid_bool(data: Seq<u8>, pos: int)
    requires
        pos + 1 <= data.len(),
        data[pos] != 0,
        data[pos] != 1,
    ensures
        spec_decode_value(data, pos, GGUfMetadataValueType::Bool) == Err::<
            (ValueView, int),
            GGUFError,
        >(GGUFError::InvalidBool(data[pos])),
{
}

/// An array declaring zero elements decodes to the empty sequence and
/// consumes exactly the twelve tag-and-count bytes, whatever its element
/// type.
pub proof fn lemma_empty_array(data: Seq<u8>, pos: int)
    requires
        pos + 12 <= data.len(),
        type_of_code(spec_le32(data, pos)) is Some,
        spec_le64(data, pos + 4) == 0,
    ensures
        spec_decode_value(data, pos, GGUfMetadataValueType::Array) == Ok::<_, GGUFError>(
            (ValueView::Array(Seq::<ValueView>::empty()), pos + 12),
        ),
{
}

/// Elements of a fixed-width type pack densely: `n` successfully decoded
/// elements consume exactly `n` times the type's width.
pub proof fn lemma_elems_fixed_width(data: Seq<u8>, pos: int, t: GGUfMetadataValueType, n: nat)
    requires
        t != GGUfMetadataValueType::String,
        t != GGUfMetadataValueType::Array,
    ensures
        spec_decode_elems(data, pos, t, n) matches Ok((vs, p)) ==> vs.len() == n && p == pos + n
            * scalar_width(t),
    decreases n,
{
    if n > 0 {
        match spec_decode_value(data, pos, t) {
            Ok((v, p2)) => {
                lemma_scalar_decode_width(data, pos, t);
                if pos < p2 <= data.len() {
                    lemma_elems_fixed_width(data, p2, t, (n - 1) as nat);
                    let w = scalar_width(t);
                    assert((n - 1) * w + w == n * w) by (nonlinear_arith);
                }
            },
            Err(_) => {},
        }
    }
}

/// A successfully decoded array of `n` elements of a fixed-width element
/// type consumes exactly `4 + 8 + n * width` bytes: the element tag, the
/// count, and the densely packed elements.
pub proof fn lemma_array_fixed_width(data: Seq<u8>, pos: int, et: GGUfMetadataValueType, n: u64)
    requires
        pos + 12 <= data.len(),
        type_of_code(spec_le32(data, pos)) == Some(et),
        et != GGUfMetadataValueType::String,
        et != GGUfMetadataValueType::Array,
        spec_le64(data, pos + 4) == n,
    ensures
        spec_decode_value(data, pos, GGUfMetadataValueType::Array) matches Ok((v, p2)) ==> (p2
            == pos + 12 + n * scalar_width(et) && (v matches ValueView::Array(vs) && vs.len()
            == n)),
{
    lemma_elems_fixed_width(data, pos + 12, et, n as nat);
}

/// A buffer whose first four bytes are present but differ from the magic
/// marker fails with BadMagic; no later byte takes part in the outcome.
pub proof fn lemma_bad_magic(data: Seq<u8>)
    requires
        data.len() >= 4,
        data.subrange(0, 4) != magic_bytes(),
    ensures
        spec_decode_header(data) == Err::<(HeaderView, int), GGUFError>(GGUFError::BadMagic),
{
}

/// A declared string length that exceeds the remaining bytes fails with
/// UnexpectedEof, before the string bytes are looked at.
pub proof fn lemma_truncated_string(data: Seq<u8>, pos: int)
    requires
        pos + 8 <= data.len(),
        pos + 8 + spec_le64(data, pos) > data.len(),
    ensures
        spec_decode_string(data, pos) == Err::<(Seq<char>, int), GGUFError>(
            GGUFError::UnexpectedEof,
        ),
        spec_decode_value(data, pos, GGUfMetadataValueType::String) == Err::<
            (ValueView, int),
            GGUFError,
        >(GGUFError::UnexpectedEof),
{
}

/// Every successfully decoded value has the shape of the type it was
/// decoded at.
pub proof fn lemma_decoded_value_has_type(data: Seq<u8>, pos: int, t: GGUfMetadataValueType)
    ensures
        spec_decode_value(data, pos, t) matches Ok((v, p2)) ==> value_has_type(v, t),
{
}

/// A successful run of `n` record decodes yields exactly `n` records.
pub proof fn lemma_decode_entries_len(data: Seq<u8>, pos: int, n: nat)
    ensures
        spec_decode_entries(data, pos, n) matches Ok((ms, p)) ==> ms.len() == n,
    decreases n,
{
    if n > 0 {
        match spec_decode_entry(data, pos) {
            Ok((m, p2)) => {
                lemma_decode_entries_len(data, p2, (n - 1) as nat);
            },
            Err(_) => {},
        }
    }
}

/// A successfully decoded header holds exactly as many metadata records as
/// the buffer's metadata count declares, and carries the version and
/// tensor count read from their fixed offsets.
pub proof fn lemma_header_field_sources(data: Seq<u8>)
    ensures
        spec_decode_header(data) matches Ok((h, p)) ==> (h.metadata.len() == spec_le64(data, 16)
            && h.version == spec_le32(data, 4) && h.tensor_count == spec_le64(data, 8)),
{
    if data.len() >= 24 && data.subrange(0, 4) == magic_bytes() {
        lemma_decode_entries_len(data, 24, spec_le64(data, 16) as nat);
    }
}

/// Every element of a successfully decoded run has the shape of the one
/// element type the run was decoded at: an array is homogeneous.
pub proof fn lemma_elems_have_type(data: Seq<u8>, pos: int, t: GGUfMetadataValueType, n: nat)
    ensures
        spec_decode_elems(data, pos, t, n) matches Ok((vs, p)) ==> forall|j: int|
            0 <= j < vs.len() ==> value_has_type(#[trigger] vs[j], t),
    decreases n,
{
    if n > 0 {
        match spec_decode_value(data, pos, t) {
            Ok((v, p2)) => {
                lemma_decoded_value_has_type(data, pos, t);
                if pos < p2 <= data.len() {
                    lemma_elems_have_type(data, p2, t, (n - 1) as nat);
                }
            },
            Err(_) => {},
        }
    }
}

/// A decoded metadata record's value always has the shape of the record's
/// declared type: the pairing cannot come out mismatched.
pub proof fn lemma_entry_value_matches_type(data: Seq<u8>, pos: int)
    ensures
        spec_decode_entry(data, pos) matches Ok((m, p)) ==> value_has_type(m.value, m.value_type),
{
    match spec_decode_string(data, pos) {
        Ok((key, p1)) => match spec_decode_tag(data, p1) {
            Ok((t, p2)) => {
                lemma_decoded_value_has_type(data, p2, t);
            },
            Err(_) => {},
        },
        Err(_) => {},
    }
}

} // verus!
