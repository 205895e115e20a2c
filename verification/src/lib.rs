//! Verified type-and-decision spine for media decoders.
//!
//! The library holds the media vocabulary (frame geometry, colour metadata,
//! packet flags, channel layouts, subtitle payloads) and the decisions a
//! decoder backend makes when it turns FFmpeg's raw frame fields into those
//! types. Every decision is a function over plain values with a contract;
//! the pointer walking and the FFmpeg calls themselves live outside it.

pub mod frame;
pub mod color;
pub mod packet;
pub mod extras;
pub mod convert;
pub mod channel_layout;
pub mod subtitle;
pub mod timing;
