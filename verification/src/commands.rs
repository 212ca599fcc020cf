use vstd::prelude::*;
use crate::decoder::Dtvcc;
use crate::error::DecodeError;
use crate::event::{Event, Warning};

verus! {

/// The control codes of the base set C0 that the decoder knows.
#[derive(Debug, Clone, Copy, PartialEq, Eq)]
pub enum C0Commands {
    NUL,
    ETX,
    BS,
    FF,
    CR,
    HCR,
    EXT1,
    P16,
}

/// The control codes of the base set C1.
#[derive(Debug, Clone, Copy, PartialEq, Eq)]
pub enum C1Commands {
    CW0,
    CW1,
    CW2,
    CW3,
    CW4,
    CW5,
    CW6,
    CW7,
    CLW,
    DSW,
    HDW,
    TGW,
    DLW,
    DLY,
    DLC,
    RST,
    SPA,
    SPC,
    SPL,
    RSV93,
    RSV94,
    RSV95,
    RSV96,
    SWA,
    DF0,
    DF1,
    DF2,
    DF3,
    DF4,
    DF5,
    DF6,
    DF7,
}

/// The command that a byte stands for in the C0 table, if it stands for one.
pub open spec fn c0_command(code: u8) -> Option<C0Commands> {
    match code {
        0x00 => Some(C0Commands::NUL),
        0x03 => Some(C0Commands::ETX),
        0x08 => Some(C0Commands::BS),
        0x0c => Some(C0Commands::FF),
        0x0d => Some(C0Commands::CR),
        0x0e => Some(C0Commands::HCR),
        0x10 => Some(C0Commands::EXT1),
        0x18 => Some(C0Commands::P16),
        _ => None,
    }
}

/// The command that a byte stands for in the C1 table, if it stands for one.
pub open spec fn c1_command(code: u8) -> Option<C1Commands> {
    match code {
        0x80 => Some(C1Commands::CW0),
        0x81 => Some(C1Commands::CW1),
        0x82 => Some(C1Commands::CW2),
        0x83 => Some(C1Commands::CW3),
        0x84 => Some(C1Commands::CW4),
        0x85 => Some(C1Commands::CW5),
        0x86 => Some(C1Commands::CW6),
        0x87 => Some(C1Commands::CW7),
        0x88 => Some(C1Commands::CLW),
        0x89 => Some(C1Commands::DSW),
        0x8A => Some(C1Commands::HDW),
        0x8B => Some(C1Commands::TGW),
        0x8C => Some(C1Commands::DLW),
        0x8D => Some(C1Commands::DLY),
        0x8E => Some(C1Commands::DLC),
        0x8F => Some(C1Commands::RST),
        0x90 => Some(C1Commands::SPA),
        0x91 => Some(C1Commands::SPC),
        0x92 => Some(C1Commands::SPL),
        0x93 => Some(C1Commands::RSV93),
        0x94 => Some(C1Commands::RSV94),
        0x95 => Some(C1Commands::RSV95),
        0x96 => Some(C1Commands::RSV96),
        0x97 => Some(C1Commands::SWA),
        0x98 => Some(C1Commands::DF0),
        0x99 => Some(C1Commands::DF1),
        0x9A => Some(C1Commands::DF2),
        0x9B => Some(C1Commands::DF3),
        0x9C => Some(C1Commands::DF4),
        0x9D => Some(C1Commands::DF5),
        0x9E => Some(C1Commands::DF6),
        0x9F => Some(C1Commands::DF7),
        _ => None,
    }
}

/// Bytes that a C0 command occupies, its opcode included; 0 for a byte that
/// the C0 table does not hold.
pub open spec fn c0_length(code: u8) -> u8 {
    if code == 0x00 || code == 0x03 || code == 0x08 || code == 0x0c || code == 0x0d || code
        == 0x0e {
        1
    } else if code == 0x10 {
        2
    } else if code == 0x18 {
        3
    } else {
        0
    }
}

/// Bytes that a C1 command occupies, its opcode included; 0 for a byte
/// outside 0x80..=0x9F.
pub open spec fn c1_length(code: u8) -> u8 {
    if code < 0x80 || code > 0x9F {
        0
    } else if code <= 0x87 {
        1
    } else if code <= 0x8D {
        2
    } else if code <= 0x8F {
        1
    } else if code == 0x90 {
        3
    } else if code == 0x91 {
        4
    } else if code == 0x92 {
        3
    } else if code <= 0x96 {
        1
    } else if code == 0x97 {
        5
    } else {
        7
    }
}

/// What the log receives for a byte looked up in the C0 table.
pub open spec fn c0_events(code: u8) -> Seq<Event> {
    match c0_command(code) {
        Some(command) => seq![Event::C0(command)],
        None => seq![Event::Warning(Warning::InvalidCommand)],
    }
}

/// What the log receives for a byte looked up in the C1 table.
pub open spec fn c1_events(code: u8) -> Seq<Event> {
    match c1_command(code) {
        Some(command) => seq![Event::C1(command)],
        None => seq![Event::Warning(Warning::InvalidCommand)],
    }
}

/// Bytes that a C2 code occupies, itself included. The C2 set is
/// 0x00..=0x1F; any larger byte counts as the last range.
pub open spec fn c2_length(code: u8) -> u8 {
    if code <= 0x07 {
        1
    } else if code <= 0x0f {
        2
    } else if code <= 0x17 {
        3
    } else {
        4
    }
}

/// Whether a byte is a C3 code to which the standard gives a length:
/// 0x80..=0x8F. The rest of the C3 set, 0x90..=0x9F, is reserved.
pub open spec fn c3_has_length(code: u8) -> bool {
    0x80 <= code <= 0x8F
}

/// Bytes that a C3 code occupies, itself included; 0 for the reserved codes
/// 0x90..=0x9F and for any byte above them. A byte below the C3 set counts
/// as the first range.
pub open spec fn c3_length(code: u8) -> u8 {
    if code <= 0x87 {
        5
    } else if code <= 0x8F {
        6
    } else {
        0
    }
}

/// What the log receives for a byte handled as a C3 code: the code and,
/// unless the standard gives it a length, a warning after it.
pub open spec fn c3_events(code: u8) -> Seq<Event> {
    if c3_has_length(code) {
        seq![Event::C3(code)]
    } else {
        seq![Event::C3(code), Event::Warning(Warning::OutOfRange)]
    }
}

/// Bytes that the code behind an escape occupies, itself included and the
/// escape byte not.
pub open spec fn extended_length(code: u8) -> u8 {
    if code <= 0x1F {
        c2_length(code)
    } else if code <= 0x7F {
        1
    } else if code <= 0x9F {
        c3_length(code)
    } else {
        1
    }
}

/// What the log receives for the code behind an escape.
pub open spec fn extended_events(code: u8) -> Seq<Event> {
    if code <= 0x1F {
        seq![Event::C2(code)]
    } else if code <= 0x7F {
        seq![Event::G2(code)]
    } else if code <= 0x9F {
        c3_events(code)
    } else {
        seq![Event::G3(code)]
    }
}

impl C0Commands {
    /// The byte that stands for the command.
    pub open spec fn opcode(self) -> u8 {
        match self {
            C0Commands::NUL => 0x00,
            C0Commands::ETX => 0x03,
            C0Commands::BS => 0x08,
            C0Commands::FF => 0x0c,
            C0Commands::CR => 0x0d,
            C0Commands::HCR => 0x0e,
            C0Commands::EXT1 => 0x10,
            C0Commands::P16 => 0x18,
        }
    }

    /// Looks a byte up in the C0 table.
    pub fn new(c0: u8) -> (command: Result<Self, DecodeError>)
        ensures
            command == match c0_command(c0) {
                Some(known) => Ok::<Self, DecodeError>(known),
                None => Err::<Self, DecodeError>(DecodeError::InvalidCommand),
            },
    {
        match c0 {
            0x00 => Ok(C0Commands::NUL),
            0x03 => Ok(C0Commands::ETX),
            0x08 => Ok(C0Commands::BS),
            0x0c => Ok(C0Commands::FF),
            0x0d => Ok(C0Commands::CR),
            0x0e => Ok(C0Commands::HCR),
            0x10 => Ok(C0Commands::EXT1),
            0x18 => Ok(C0Commands::P16),
            _ => Err(DecodeError::InvalidCommand),
        }
    }
}

impl C1Commands {
    /// The byte that stands for the command.
    pub open spec fn opcode(self) -> u8 {
        match self {
            C1Commands::CW0 => 0x80,
            C1Commands::CW1 => 0x81,
            C1Commands::CW2 => 0x82,
            C1Commands::CW3 => 0x83,
            C1Commands::CW4 => 0x84,
            C1Commands::CW5 => 0x85,
            C1Commands::CW6 => 0x86,
            C1Commands::CW7 => 0x87,
            C1Commands::CLW => 0x88,
            C1Commands::DSW => 0x89,
            C1Commands::HDW => 0x8A,
            C1Commands::TGW => 0x8B,
            C1Commands::DLW => 0x8C,
            C1Commands::DLY => 0x8D,
            C1Commands::DLC => 0x8E,
            C1Commands::RST => 0x8F,
            C1Commands::SPA => 0x90,
            C1Commands::SPC => 0x91,
            C1Commands::SPL => 0x92,
            C1Commands::RSV93 => 0x93,
            C1Commands::RSV94 => 0x94,
            C1Commands::RSV95 => 0x95,
            C1Commands::RSV96 => 0x96,
            C1Commands::SWA => 0x97,
            C1Commands::DF0 => 0x98,
            C1Commands::DF1 => 0x99,
            C1Commands::DF2 => 0x9A,
            C1Commands::DF3 => 0x9B,
            C1Commands::DF4 => 0x9C,
            C1Commands::DF5 => 0x9D,
            C1Commands::DF6 => 0x9E,
            C1Commands::DF7 => 0x9F,
        }
    }

    /// Looks a byte up in the C1 table.
    pub fn new(c1: u8) -> (command: Result<Self, DecodeError>)
        ensures
            command == match c1_command(c1) {
                Some(known) => Ok::<Self, DecodeError>(known),
                None => Err::<Self, DecodeError>(DecodeError::InvalidCommand),
            },
    {
        match c1 {
            0x80 => Ok(C1Commands::CW0),
            0x81 => Ok(C1Commands::CW1),
            0x82 => Ok(C1Commands::CW2),
            0x83 => Ok(C1Commands::CW3),
            0x84 => Ok(C1Commands::CW4),
            0x85 => Ok(C1Commands::CW5),
            0x86 => Ok(C1Commands::CW6),
            0x87 => Ok(C1Commands::CW7),
            0x88 => Ok(C1Commands::CLW),
            0x89 => Ok(C1Commands::DSW),
            0x8A => Ok(C1Commands::HDW),
            0x8B => Ok(C1Commands::TGW),
            0x8C => Ok(C1Commands::DLW),
            0x8D => Ok(C1Commands::DLY),
            0x8E => Ok(C1Commands::DLC),
            0x8F => Ok(C1Commands::RST),
            0x90 => Ok(C1Commands::SPA),
            0x91 => Ok(C1Commands::SPC),
            0x92 => Ok(C1Commands::SPL),
            0x93 => Ok(C1Commands::RSV93),
            0x94 => Ok(C1Commands::RSV94),
            0x95 => Ok(C1Commands::RSV95),
            0x96 => Ok(C1Commands::RSV96),
            0x97 => Ok(C1Commands::SWA),
            0x98 => Ok(C1Commands::DF0),
            0x99 => Ok(C1Commands::DF1),
            0x9A => Ok(C1Commands::DF2),
            0x9B => Ok(C1Commands::DF3),
            0x9C => Ok(C1Commands::DF4),
            0x9D => Ok(C1Commands::DF5),
            0x9E => Ok(C1Commands::DF6),
            0x9F => Ok(C1Commands::DF7),
            _ => Err(DecodeError::InvalidCommand),
        }
    }
}

/// Classifies the byte at `pos` as a C1 command, logs it, and returns the
/// bytes that the command occupies. A byte outside the table is logged as a
/// warning and counts for 0 bytes.
pub fn handle_c1(dtvcc: &mut Dtvcc, pos: usize, _block_length: u8, events: &mut Vec<Event>) -> (len:
    u8)
    requires
        pos < old(dtvcc)@.bytes.len(),
    ensures
        len == c1_length(old(dtvcc)@.bytes[pos as int]),
        final(events)@ == old(events)@ + c1_events(old(dtvcc)@.bytes[pos as int]),
        *final(dtvcc) == *old(dtvcc),
{
    let mut len: u8 = 0;
    let c1 = C1Commands::new(dtvcc.current_packet[pos]);

    match c1 {
        Err(_) => events.push(Event::Warning(Warning::InvalidCommand)),
        Ok(command) => {
            events.push(Event::C1(command));
            match command {
                C1Commands::CW0 => len = 1,
                C1Commands::CW1 => len = 1,
                C1Commands::CW2 => len = 1,
                C1Commands::CW3 => len = 1,
                C1Commands::CW4 => len = 1,
                C1Commands::CW5 => len = 1,
                C1Commands::CW6 => len = 1,
                C1Commands::CW7 => len = 1,
                C1Commands::CLW => len = 2,
                C1Commands::DSW => len = 2,
                C1Commands::HDW => len = 2,
                C1Commands::TGW => len = 2,
                C1Commands::DLW => len = 2,
                C1Commands::DLY => len = 2,
                C1Commands::DLC => len = 1,
                C1Commands::RST => len = 1,
                C1Commands::SPA => len = 3,
                C1Commands::SPC => len = 4,
                C1Commands::SPL => len = 3,
                C1Commands::RSV93 => len = 1,
                C1Commands::RSV94 => len = 1,
                C1Commands::RSV95 => len = 1,
                C1Commands::RSV96 => len = 1,
                C1Commands::SWA => len = 5,
                C1Commands::DF0 => len = 7,
                C1Commands::DF1 => len = 7,
                C1Commands::DF2 => len = 7,
                C1Commands::DF3 => len = 7,
                C1Commands::DF4 => len = 7,
                C1Commands::DF5 => len = 7,
                C1Commands::DF6 => len = 7,
                C1Commands::DF7 => len = 7,
            }
        },
    }
    len
}

/// Classifies the byte at `pos` as a C0 command, logs it, and returns the
/// bytes that the command occupies. A byte outside the table is logged as a
/// warning and counts for 0 bytes.
pub fn handle_c0(dtvcc: &mut Dtvcc, pos: usize, _block_length: u8, events: &mut Vec<Event>) -> (len:
    u8)
    requires
        pos < old(dtvcc)@.bytes.len(),
    ensures
        len == c0_length(old(dtvcc)@.bytes[pos as int]),
        final(events)@ == old(events)@ + c0_events(old(dtvcc)@.bytes[pos as int]),
        *final(dtvcc) == *old(dtvcc),
{
    let mut len: u8 = 0;
    let c0 = C0Commands::new(dtvcc.current_packet[pos]);

    match c0 {
        Err(_) => events.push(Event::Warning(Warning::InvalidCommand)),
        Ok(command) => {
            events.push(Event::C0(command));
            match command {
                C0Commands::NUL => len = 1,
                C0Commands::ETX => len = 1,
                C0Commands::BS => len = 1,
                C0Commands::FF => len = 1,
                C0Commands::CR => len = 1,
                C0Commands::HCR => len = 1,
                C0Commands::EXT1 => len = 2,
                C0Commands::P16 => len = 3,
            }
        },
    }
    len
}

/// Logs the byte at `pos` as a character of G0. It occupies one byte.
pub fn handle_g0(dtvcc: &mut Dtvcc, pos: usize, _block_length: u8, events: &mut Vec<Event>) -> (len:
    u8)
    requires
        pos < old(dtvcc)@.bytes.len(),
    ensures
        len == 1,
        final(events)@ == old(events)@.push(Event::G0(old(dtvcc)@.bytes[pos as int])),
        *final(dtvcc) == *old(dtvcc),
{
    events.push(Event::G0(dtvcc.current_packet[pos]));
    1
}

/// Logs the byte at `pos` as a character of G1. It occupies one byte.
pub fn handle_g1(dtvcc: &mut Dtvcc, pos: usize, _block_length: u8, events: &mut Vec<Event>) -> (len:
    u8)
    requires
        pos < old(dtvcc)@.bytes.len(),
    ensures
        len == 1,
        final(events)@ == old(events)@.push(Event::G1(old(dtvcc)@.bytes[pos as int])),
        *final(dtvcc) == *old(dtvcc),
{
    events.push(Event::G1(dtvcc.current_packet[pos]));
    1
}

/// Logs a C2 code and returns the bytes that it occupies, itself included.
pub fn handle_c2(data: u8, events: &mut Vec<Event>) -> (len: u8)
    ensures
        len == c2_length(data),
        final(events)@ == old(events)@.push(Event::C2(data)),
{
    events.push(Event::C2(data));
    if data <= 0x07 {
        return 1;
    } else if data <= 0x0f {
        return 2;
    } else if data <= 0x17 {
        return 3;
    }
    4
}

/// Logs a C3 code and returns the bytes that it occupies, itself included.
/// A byte to which the standard gives no length, the reserved codes
/// 0x90..=0x9F among them, is logged with a warning behind it.
pub fn handle_c3(data: u8, events: &mut Vec<Event>) -> (len: u8)
    ensures
        len == c3_length(data),
        final(events)@ == old(events)@ + c3_events(data),
        0x90 <= data <= 0x9F ==> len == 0 && final(events)@ == old(events)@.push(
            Event::C3(data),
        ).push(Event::Warning(Warning::OutOfRange)),
{
    events.push(Event::C3(data));
    if data < 0x80 || data > 0x8F {
        events.push(Event::Warning(Warning::OutOfRange));
    }
    if data <= 0x87 {
        return 5;
    } else if data <= 0x8F {
        return 6;
    }
    0
}

/// Classifies the byte at `pos`, which follows an escape, in the extended
/// sets, logs it, and returns the bytes that it occupies, itself included
/// and the escape byte not.
pub fn handle_extended_char(
    dtvcc: &mut Dtvcc,
    pos: usize,
    _block_length: u8,
    events: &mut Vec<Event>,
) -> (len: u8)
    requires
        pos < old(dtvcc)@.bytes.len(),
    ensures
        len == extended_length(old(dtvcc)@.bytes[pos as int]),
        final(events)@ == old(events)@ + extended_events(old(dtvcc)@.bytes[pos as int]),
        *final(dtvcc) == *old(dtvcc),
{
    let code: u8 = dtvcc.current_packet[pos];

    if code <= 0x1F {
        handle_c2(code, events)
    } else if code >= 0x20 && code <= 0x7F {
        events.push(Event::G2(code));
        1
    } else if code >= 0x80 && code <= 0x9F {
        handle_c3(code, events)
    } else {
        events.push(Event::G3(code));
        1
    }
}

} // verus!
