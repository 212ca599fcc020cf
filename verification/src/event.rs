use vstd::prelude::*;
use crate::commands::{C0Commands, C1Commands};

verus! {

/// A protocol violation. None of them stops the decoder.
#[derive(Debug, Clone, Copy, PartialEq, Eq)]
pub enum Warning {
    /// A continuation payload was dropped: the packet already holds more
    /// than 253 bytes.
    OversizeData,
    /// The first payload of a packet was dropped: the packet already holds
    /// more than 127 bytes.
    OversizeStart,
    /// A block header names service 0 with a length other than 0. The rest
    /// of the packet is abandoned.
    IllegalServiceBlock,
    /// An opcode that its command table does not hold.
    InvalidCommand,
    /// An extended control code outside the ranges that carry a length.
    OutOfRange,
}

/// One entry of the diagnostic log, in the order in which the decoder met it.
#[derive(Debug, Clone, Copy, PartialEq, Eq)]
pub enum Event {
    /// A control code of the base set C0.
    C0(C0Commands),
    /// A control code of the base set C1.
    C1(C1Commands),
    /// An extended control code of the set C2, with its byte.
    C2(u8),
    /// An extended control code of the set C3, with its byte.
    C3(u8),
    /// A character of the base set G0, with its byte.
    G0(u8),
    /// A character of the base set G1, with its byte.
    G1(u8),
    /// A character of the extended set G2, with its byte.
    G2(u8),
    /// A character of the extended set G3, with its byte.
    G3(u8),
    /// A protocol violation.
    Warning(Warning),
}

} // verus!
