use vstd::prelude::*;

verus! {

/// Failure reported by the header decoder.  Every malformed input maps to
/// exactly one of these kinds; decoding aborts at the first failure and the
/// decoder itself never panics.
#[derive(Debug, Clone, Copy, PartialEq, Eq, Structural)]
pub enum GGUFError {
    /// Fewer bytes remain than the next field requires.
    UnexpectedEof,
    /// The first four bytes are not the format marker.
    BadMagic,
    /// A type tag outside the known table, with the offending code.
    UnknownTypeTag(u32),
    /// String bytes that are not valid UTF-8.
    InvalidUtf8,
    /// A boolean byte that is neither 0 nor 1.
    InvalidBool(u8),
}

} // verus!
