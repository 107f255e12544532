//! Key material of the DDS Security builtin cryptographic plugin (the
//! AES-GCM/GMAC family): the typed structures, their CDR encoding, their
//! carriage in generic crypto tokens, and the framing elements of a
//! transformed submessage. Every function is pure and verified.

pub mod authentication;
pub mod error;
pub mod transformation_kind;
pub mod builtin_key;
pub mod cdr;
pub mod key_material;
pub mod key_material_seq;
pub mod seq_codec;
pub mod buffer;
pub mod wire;
pub mod token;
pub mod submessage;
