//! A uniform interface to CAN and CAN-FD adapters of several vendor families:
//! the frame model and its wire conversions, a type-checked property bag for
//! channel and device configuration, table-driven bit-rate resolution, and the
//! device/channel lifecycle dispatched to capability backends.

pub mod constants;
pub mod error;
pub mod frame;
pub mod bitrate;
pub mod device;
pub mod config;
pub mod builder;
pub mod context;
pub mod api;
pub mod driver;
pub mod backend;
pub mod wire;
pub mod nican;
pub mod lin;
pub mod settings;
pub mod util;
pub mod keyed;
