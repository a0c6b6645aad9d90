//! Error kinds and file-load return statuses surfaced by the shim.

use vstd::prelude::*;

verus! {

/// A recoverable failure reported by the shim to its caller.
#[derive(Clone, Copy, Debug, PartialEq, Eq, Structural)]
pub enum Error {
    /// The envelope header or section table is malformed, or a section
    /// extends past the envelope bounds.
    InvalidEnvelope,
    /// The envelope carries no `.initrd` section.
    PayloadMissing,
    /// The firmware's security policy rejected the envelope's signature.
    AuthenticationFailed,
    /// The firmware ran out of resources or refused an operation.
    FirmwareResource,
}

/// The status returned by the file-load entrypoint to its caller.
#[derive(Clone, Copy, Debug, PartialEq, Eq, Structural)]
pub enum LoadStatus {
    /// The payload was copied into the caller's buffer in full.
    Success,
    /// The caller's buffer was absent or too short; the size slot was
    /// set to the payload length and no bytes were written.
    BufferTooSmall,
}

} // verus!
