//! Image compression pipeline: format sniffing, orientation correction,
//! bounded resizing, palette quantization and JPEG/PNG encoding.
pub mod compression;
pub mod config;
pub mod convert;
pub mod error;
pub mod handlers;
pub mod jpeg;
pub mod metadata;
pub mod orientation;
pub mod pixels;
pub mod quantize;
pub mod resize;
pub mod sniff;
pub mod text;
pub mod zerocopy;
