//! Verified core of the LCD service for the ASUS liquid-cooler screen.
//!
//! - `protocol`, `packetize`, `jpeg`, `device`: the HID protocol: the init
//!   packet, the framing of a JPEG into 1024-byte reports, the JPEG header
//!   scan, the choice of the cooler's interfaces and the acknowledgement check.
//! - `prepare`, `rotation`, `animation`, `frame`, `pixels`: turning a source
//!   image or animation frame into a 320x320 JPEG that fits in one upload.
//! - `config`, `text`: the configuration schema, its vocabulary, validation,
//!   path resolution and the command lines.
//! - `runtime`, `service`: configuration reloads and the service loop.
//! - `source`, `image_source`: the frame sources refreshed between uploads.
//! - `dashboard`, `format`: the texts of the dashboard overlay.

pub mod protocol;
pub mod packetize;
pub mod jpeg;
pub mod text;
pub mod rotation;
pub mod config;
pub mod runtime;
pub mod service;
pub mod frame;
pub mod prepare;
pub mod animation;
pub mod source;
pub mod image_source;
pub mod device;
pub mod pixels;
pub mod format;
pub mod dashboard;
