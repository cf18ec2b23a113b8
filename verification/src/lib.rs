//! Safe marshaling layer for an NFC/RFID reader-control library.
//!
//! The native library speaks in raw integer status codes, integer enum
//! constants, fixed-size null-padded buffers and sentinel-terminated arrays.
//! This crate holds the verified translation discipline between that raw
//! representation and checked Rust values: error-code translation, closed
//! enumerations with fallible decoding, bounded connection-string copies,
//! poll-period discretization, sentinel-terminated list decoding, target
//! record validation, and the open/release lifecycle of a device handle.
//! The actual foreign calls live outside this crate; every function here is
//! a total computation on plain values, verified against its contract.

pub mod connstring;
pub mod device;
pub mod enums;
pub mod error;
pub mod poll;
pub mod supported;
pub mod target;

pub use enums::BaudRate;
pub use enums::DepMode;
pub use enums::Mode;
pub use enums::Modulation;
pub use enums::ModulationType;
pub use enums::Property;
pub use enums::Timeout;
pub use error::Error;
