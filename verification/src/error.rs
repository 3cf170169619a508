//! Error values of the frame pipeline: decoding failures on the raw text
//! line, and validation failures on an already-decoded frame.

use vstd::prelude::*;

verus! {

/// Why a raw text line could not be decoded into a frame.
#[derive(Debug, Clone, Copy, PartialEq, Eq, Structural)]
pub enum DecodeError {
    /// The line's byte length differs from the required 50.
    InvalidLength(usize),
    /// The first offending byte: a missing `:` sentinel, or a byte that is
    /// not an uppercase hexadecimal digit where one is required.
    InvalidCharacter(u8),
}

/// Why a decoded frame was rejected by validation.
#[derive(Debug, Clone, Copy, PartialEq, Eq, Structural)]
pub enum ValidateError {
    /// The 8-bit wraparound sum of all 24 bytes, which must be 0; carries
    /// the nonzero computed total.
    InvalidChecksum(u8),
    /// The command byte, which must be 0x81 ("status notify").
    InvalidCommand(u8),
    /// The protocol-version byte, which must be 0x01.
    InvalidProtocolVersion(u8),
    /// The relay-count byte, which must be at most 3.
    InvalidRelayCount(u8),
}

} // verus!
