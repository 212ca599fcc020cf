use vstd::prelude::*;

verus! {

/// Failures that a decoding function reports to its caller.
#[derive(Debug, Clone, Copy, PartialEq, Eq)]
pub enum DecodeError {
    /// The opcode does not belong to the command table it was looked up in.
    InvalidCommand,
    /// The caption data ends inside a triplet that carries caption bytes.
    TruncatedTriplet,
    /// The file header does not start with the magic number.
    BadMagic,
    /// The reserved bytes of the file header are not all zero.
    BadReserved,
}

} // verus!
