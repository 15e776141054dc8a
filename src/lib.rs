//! Deserialize environment variables, or any list of name/value pairs,
//! into a typed configuration record.
//!
//! The library holds the coercion rules: how one raw name or value is read
//! as text, as a boolean or as an integer, which shapes are refused, how the
//! pairs are walked, and how environment entries are filtered by a prefix.
pub mod coerce;
pub mod error;
pub mod key;
pub mod laws;
pub mod number;
pub mod prefix;
pub mod record;
pub mod shape;
pub mod text;
pub mod value;

pub use coerce::{bool_from_lowered, bool_from_text};
pub use error::{Error, ErrorCode};
pub use key::Key;
pub use prefix::strip_prefixed;
pub use record::EnvDeserializer;
pub use shape::Shape;
pub use text::text_eq;
pub use value::{Extracted, Value};
