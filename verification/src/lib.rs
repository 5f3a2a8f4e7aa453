//! Decoding of JSON5 parse trees into typed values.
//!
//! A grammar engine turns JSON5 text into a tree of [`node::ParseNode`]s. This
//! crate is what comes after: the scalar decoders, the single-use
//! deserializer core that dispatches on a node's kind, and the accessor that
//! walks an array's children in order.

pub mod de;
pub mod error;
pub mod hex;
pub mod node;
pub mod number;
pub mod scalar;
pub mod text;
pub mod value;

pub use de::{Access, Decoded, Json5Deserializer, DEFAULT_MAX_DEPTH};
pub use error::{DecodeFault, Error};
pub use hex::{is_hex_literal, parse_hex};
pub use node::{ParseNode, StringComponent};
pub use number::{parse_number, NumberValue};
pub use scalar::{parse_bool, parse_char_escape_sequence, parse_string};
pub use value::{decode, decode_with_max_depth, Value};
