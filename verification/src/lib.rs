//! A minimal state-mutation handler for a fixed-layout byte buffer: it
//! validates that exactly one 8-byte buffer is supplied, reads the bytes as an
//! unsigned 64-bit little-endian counter, and increments it in place, failing
//! safely on overflow without touching the buffer.

pub mod codec;
pub mod counter;
