//! Conversions into owned buffers that avoid a copy wherever the source
//! value already owns its storage.
pub mod lemmas;
pub mod sequence;
pub mod text;

pub use sequence::IntoVec;
pub use text::IntoString;
