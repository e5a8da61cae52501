//! Decoder for the header of a GGUF model file.
//!
//! The header holds a four-byte magic marker, a format version, the number
//! of tensor descriptors that follow, and an ordered list of typed
//! key/value metadata records.  Everything is decoded in one forward pass
//! over an in-memory byte buffer; malformed input is reported as a typed
//! error and never panics.

pub mod decode;
pub mod error;
pub mod laws;
pub mod model;
pub mod types;

pub use error::GGUFError;
pub use types::GGUfMetadataValueType;
pub use types::GGUFMetadata;
pub use types::GGUFMetadataValue;
pub use types::GGUFHeader;
