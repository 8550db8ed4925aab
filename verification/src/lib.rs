//! Command frames for a multi-channel voltage-control chip.
//!
//! A command names a logical channel and a 16-bit output level. The library
//! turns it into the chip's fixed eight-byte frame and back, and proves the
//! properties of that format: the layout of every byte, the checksum, and
//! that decoding a frame recovers the command it was built from.

pub mod frame;
pub mod level;
