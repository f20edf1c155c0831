//! A bit-addressable cursor over an immutable byte sequence, for decoding
//! binary wire formats field by field: single bits, sub-byte fields, whole
//! bytes, big-endian multi-byte integers, and zero-copy nested sub-regions.

pub mod bit;
pub mod byte_buffer;
pub mod byte_buffer_slice;
pub mod error;
pub mod helpers;
pub mod laws;
pub mod model;
pub mod readable_buf;
pub mod some_readable_buf;
