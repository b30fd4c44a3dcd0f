//! A checksum-protected binary envelope for telemetry samples.
//!
//! A sample is packed into a fixed twelve-byte payload, the payload is
//! wrapped into a frame (header, payload, CRC-32 trailer), and a receiver
//! can take the frame apart again. Every multi-byte field on the wire is
//! little-endian.

pub mod wire;
pub mod checksum;
pub mod frame;
pub mod telemetry;
pub mod decode;
pub mod round_trip;
pub mod generator;
pub mod clock;
pub mod emitter;
