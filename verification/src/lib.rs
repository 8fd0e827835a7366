//! Encoding of bundle parts into ordered wire chunks, the in-memory blob
//! wrapper, and the decisions of the blob key copier.

pub mod blob;
pub mod buf;
pub mod chunk;
pub mod copy_keys;
pub mod generation;
pub mod part_encode;
pub mod part_header;
pub mod stream;
