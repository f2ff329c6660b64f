//! Wire transport codec for a three-wire UART ("H5") link carried over a
//! SLIP-framed serial byte stream.
//!
//! The pipeline is: raw serial chunks are fed to a [`transport::frame::FrameExtractor`],
//! which carves out sentinel-delimited SLIP frames; each frame is unescaped by
//! [`transport::slip::decode`]; the unescaped bytes are parsed into an
//! [`transport::h5::H5Packet`] with its sequencing, acknowledgement and
//! packet-type metadata.

use vstd::prelude::*;

pub mod gap;
pub mod transport;

verus! {

/// Errors of the decode pipeline. Every one is local to a single frame and
/// recoverable: the offending frame is discarded and scanning resumes at the
/// next sentinel byte.
#[derive(Debug, Clone, Copy, PartialEq, Eq, Structural)]
pub enum Error {
    /// Malformed SLIP escape sequence: a dangling escape byte, or an escape
    /// followed by an unrecognized code.
    DecodingError,
    /// Fewer than four bytes after unescaping: no room for the header.
    ShortFrameError,
    /// The header checksum byte does not match the first three header bytes.
    ChecksumError,
    /// The declared payload length is inconsistent with the frame size.
    FrameLengthError,
}

} // verus!
