//! A firmware-resident initrd delivery shim.
//!
//! The library locates an initial RAM disk inside a signed executable
//! envelope, routes the envelope through the firmware's image
//! authentication gate, and serves the extracted payload to the kernel
//! through the firmware's file-load protocol contract.

pub mod device_path;
pub mod envelope;
pub mod firmware;
pub mod load_file;
pub mod loader;
pub mod status;
