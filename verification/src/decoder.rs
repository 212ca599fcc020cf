use vstd::prelude::*;
use crate::commands::{
    c0_events,
    c0_length,
    c1_events,
    c1_length,
    extended_events,
    extended_length,
    handle_c0,
    handle_c1,
    handle_extended_char,
    handle_g0,
    handle_g1,
};
use crate::error::DecodeError;
use crate::event::{Event, Warning};

verus! {

/// The escape code: the byte behind it belongs to the extended sets.
pub const EXT1: u8 = 0x10;

/// A continuation payload is dropped where the assembler has counted more
/// bytes than this.
pub const MAX_LENGTH_BEFORE_DATA: u8 = 253;

/// The first payload of a packet is dropped where the assembler has counted
/// more bytes than this.
pub const MAX_LENGTH_BEFORE_START: u8 = 127;

/// The packet under assembly, as the contracts see it.
pub struct Packet {
    /// The bytes received so far, in wire order.
    pub bytes: Seq<u8>,
    /// The number of bytes that the assembler counts as added.
    pub declared_length: nat,
}

/// The packet under assembly: its bytes and, counted apart from them, the
/// length that the assembler has accepted.
pub struct Dtvcc {
    pub current_packet: Vec<u8>,
    pub current_packet_length: u8,
}

impl View for Dtvcc {
    type V = Packet;

    open spec fn view(&self) -> Packet {
        Packet {
            bytes: self.current_packet@,
            declared_length: self.current_packet_length as nat,
        }
    }
}

/// The decoder: it owns the packet under assembly.
pub struct Decoder {
    dtvcc: Dtvcc,
}

impl View for Decoder {
    type V = Packet;

    closed spec fn view(&self) -> Packet {
        self.dtvcc@
    }
}

impl Decoder {
    /// A decoder with an empty packet.
    pub fn new() -> (decoder: Self)
        ensures
            decoder@.bytes == Seq::<u8>::empty(),
            decoder@.declared_length == 0,
    {
        Self { dtvcc: Dtvcc::new() }
    }

    /// The packet under assembly.
    pub fn dtvcc(&self) -> (dtvcc: &Dtvcc)
        ensures
            dtvcc@ == self@,
    {
        &self.dtvcc
    }
}

impl Dtvcc {
    /// An empty packet.
    pub fn new() -> (dtvcc: Self)
        ensures
            dtvcc@.bytes == Seq::<u8>::empty(),
            dtvcc@.declared_length == 0,
    {
        Self { current_packet: Vec::new(), current_packet_length: 0 }
    }
}

/// The first byte of a packet, taken apart.
#[derive(Debug, Clone, Copy, PartialEq, Eq)]
pub struct PacketHeader {
    /// The two high bits: the packet's place in the sequence of packets.
    pub sequence_number: u8,
    /// The length in bytes that the six low bits announce, header included.
    pub expected_length: u8,
}

/// The header of one service block.
#[derive(Debug, Clone, Copy, PartialEq, Eq)]
pub struct BlockHeader {
    /// The service that owns the block.
    pub service_number: u8,
    /// The number of content bytes behind the header.
    pub block_length: u8,
    /// The number of bytes that the header occupies: 1, or 2 where the
    /// service number is extended.
    pub header_length: u8,
}

/// Bytes that the handlers report for the command at `pos`, its opcode
/// included. An escape counts for itself and for the extended code behind
/// it; where the buffer ends with the escape, for itself alone.
pub open spec fn consumed_length(bytes: Seq<u8>, pos: int) -> int
    recommends
        0 <= pos < bytes.len(),
{
    let code: u8 = bytes[pos];
    if code == EXT1 {
        if pos + 1 < bytes.len() {
            extended_length(bytes[pos + 1]) + 1
        } else {
            1
        }
    } else if code <= 0x1F {
        c0_length(code) as int
    } else if code <= 0x7F {
        1
    } else if code <= 0x9F {
        c1_length(code) as int
    } else {
        1
    }
}

/// Bytes by which the cursor moves over the command at `pos`: what the
/// handlers report, and one byte where they report none, so that the walk
/// goes on behind an opcode that no table holds.
pub open spec fn step_length(bytes: Seq<u8>, pos: int) -> int
    recommends
        0 <= pos < bytes.len(),
{
    let consumed: int = consumed_length(bytes, pos);
    if consumed < 1 {
        1
    } else {
        consumed
    }
}

/// What the log receives for the command at `pos`.
pub open spec fn step_events(bytes: Seq<u8>, pos: int) -> Seq<Event>
    recommends
        0 <= pos < bytes.len(),
{
    let code: u8 = bytes[pos];
    if code == EXT1 {
        if pos + 1 < bytes.len() {
            extended_events(bytes[pos + 1])
        } else {
            Seq::empty()
        }
    } else if code <= 0x1F {
        c0_events(code)
    } else if code <= 0x7F {
        seq![Event::G0(code)]
    } else if code <= 0x9F {
        c1_events(code)
    } else {
        seq![Event::G1(code)]
    }
}

/// What the log receives for the rest of a service block, from cursor `i`
/// on. The block's content starts at `start` and is `block_length` bytes
/// long; the walk ends with the block or with the buffer, whichever comes
/// first.
pub open spec fn block_events_from(bytes: Seq<u8>, start: int, block_length: int, i: int) -> Seq<
    Event,
>
    decreases
        if i < block_length {
            block_length - i
        } else {
            0
        },
{
    if 0 <= start && 0 <= i < block_length && start + i < bytes.len() {
        step_events(bytes, start + i) + block_events_from(
            bytes,
            start,
            block_length,
            i + step_length(bytes, start + i),
        )
    } else {
        Seq::empty()
    }
}

/// What the log receives for a whole service block.
pub open spec fn block_events(bytes: Seq<u8>, start: int, block_length: int) -> Seq<Event> {
    block_events_from(bytes, start, block_length, 0)
}

/// Walks the content of one service block, `block_length` bytes from `pos`
/// on, command by command, and logs each command. The cursor moves by the
/// length of each command and by at least one byte; a block that runs past
/// the buffer is walked as far as the buffer goes.
pub fn ccx_dtvcc_process_service_block(
    dtvcc: &mut Dtvcc,
    pos: usize,
    block_length: u8,
    events: &mut Vec<Event>,
)
    ensures
        final(events)@ == old(events)@ + block_events(
            old(dtvcc)@.bytes,
            pos as int,
            block_length as int,
        ),
        *final(dtvcc) == *old(dtvcc),
{
    let n: usize = dtvcc.current_packet.len();
    let length: usize = block_length as usize;
    let mut i: usize = 0;
    while i < length && pos < n && i < n - pos
        invariant
            *dtvcc == *old(dtvcc),
            n == dtvcc.current_packet@.len(),
            length == block_length,
            events@ + block_events_from(dtvcc@.bytes, pos as int, length as int, i as int)
                == old(events)@ + block_events(dtvcc@.bytes, pos as int, length as int),
        decreases
            if i < length {
                length - i
            } else {
                0
            },
    {
        let curr: usize = pos + i;
        let code: u8 = dtvcc.current_packet[curr];
        let rest: u8 = (length - i) as u8;
        let ghost before: Seq<Event> = events@;

        let consumed: u8 = if code != EXT1 {
            if code <= 0x1F {
                handle_c0(dtvcc, curr, rest, events)
            } else if code >= 0x20 && code <= 0x7F {
                handle_g0(dtvcc, curr, rest, events)
            } else if code >= 0x80 && code <= 0x9F {
                handle_c1(dtvcc, curr, rest, events)
            } else {
                handle_g1(dtvcc, curr, rest, events)
            }
        } else if curr + 1 < n {
            let mut used: u8 = handle_extended_char(dtvcc, curr + 1, rest, events);
            used += 1;
            used
        } else {
            1
        };
        assert(events@ =~= before + step_events(dtvcc@.bytes, curr as int));
        i += if consumed == 0 {
            1
        } else {
            consumed as usize
        };
    }
}

/// The sequence number in a packet's first byte: its two high bits.
pub open spec fn sequence_number(header: u8) -> int {
    header as int / 64
}

/// The length field in a packet's first byte: its six low bits.
pub open spec fn length_field(header: u8) -> int {
    header as int % 64
}

/// The packet length that a first byte announces: twice its length field,
/// and 128 where the field is 0.
pub open spec fn expected_length(header: u8) -> int {
    if length_field(header) == 0 {
        128
    } else {
        2 * length_field(header)
    }
}

/// The length up to which a packet is walked: the announced length where the
/// assembler counted as many bytes, else what the assembler counted.
pub open spec fn resolved_length(header: u8, declared_length: nat) -> int {
    if declared_length != expected_length(header) {
        declared_length as int
    } else {
        expected_length(header)
    }
}

/// Whether the first byte of a block header announces an extended service
/// number: its three high bits are 7.
pub open spec fn has_extended_service(first: u8) -> bool {
    first as int / 32 == 7
}

/// Whether a whole block header lies in the buffer at `pos`.
pub open spec fn block_header_fits(bytes: Seq<u8>, pos: int) -> bool {
    0 <= pos < bytes.len() && (has_extended_service(bytes[pos]) ==> pos + 1 < bytes.len())
}

/// The block header at `pos`. The three high bits of its first byte are the
/// service number and the five low bits the block length; where the three
/// bits are 7, the six low bits of a second byte are the service number.
pub open spec fn block_header(bytes: Seq<u8>, pos: int) -> BlockHeader
    recommends
        block_header_fits(bytes, pos),
{
    let first: u8 = bytes[pos];
    if has_extended_service(first) {
        BlockHeader {
            service_number: (bytes[pos + 1] as int % 64) as u8,
            block_length: (first as int % 32) as u8,
            header_length: 2,
        }
    } else {
        BlockHeader {
            service_number: (first as int / 32) as u8,
            block_length: (first as int % 32) as u8,
            header_length: 1,
        }
    }
}

/// What the log receives for the rest of a packet, from the block header at
/// `pos` on, walked up to `end`. A block of service 0 is skipped where it is
/// empty and ends the walk with a warning where it is not; the walk also
/// ends where the buffer holds no whole header.
pub open spec fn packet_events_from(bytes: Seq<u8>, end: int, pos: int) -> Seq<Event>
    decreases
        if pos < end {
            end - pos
        } else {
            0
        },
{
    if pos < end && block_header_fits(bytes, pos) {
        let header: BlockHeader = block_header(bytes, pos);
        let start: int = pos + header.header_length;
        if header.service_number == 0 && header.block_length != 0 {
            seq![Event::Warning(Warning::IllegalServiceBlock)]
        } else if header.service_number > 0 {
            block_events(bytes, start, header.block_length as int) + packet_events_from(
                bytes,
                end,
                start + header.block_length,
            )
        } else {
            packet_events_from(bytes, end, start + header.block_length)
        }
    } else {
        Seq::empty()
    }
}

/// The number of bytes behind the header up to which a pending packet is
/// walked.
pub open spec fn walk_length(packet: Packet) -> int
    recommends
        is_pending(packet),
{
    resolved_length(packet.bytes[0], packet.declared_length) - 1
}

/// Whether the assembler has counted as many bytes as the packet holds.
pub open spec fn is_consistent(packet: Packet) -> bool {
    packet.bytes.len() == packet.declared_length
}

/// Whether finalizing a packet does anything: it holds bytes, and the
/// assembler counted some.
pub open spec fn is_pending(packet: Packet) -> bool {
    packet.bytes.len() > 0 && packet.declared_length != 0
}

/// What the log receives when a packet is finalized.
pub open spec fn finalize_events(packet: Packet) -> Seq<Event> {
    if is_pending(packet) {
        packet_events_from(
            packet.bytes,
            resolved_length(packet.bytes[0], packet.declared_length),
            1,
        )
    } else {
        Seq::empty()
    }
}

/// The packet that finalizing leaves: an empty one, or the packet itself
/// where there was nothing to finalize.
pub open spec fn finalized(packet: Packet) -> Packet {
    if is_pending(packet) {
        Packet { bytes: Seq::empty(), declared_length: 0 }
    } else {
        packet
    }
}

/// Takes the first byte of a packet apart.
pub fn read_packet_header(header: u8) -> (parts: PacketHeader)
    ensures
        parts.sequence_number == sequence_number(header),
        parts.expected_length == expected_length(header),
        length_field(header) == 0 ==> parts.expected_length == 128,
{
    let seq: u8 = (header & 0xC0) >> 6;
    let mut len: u8 = header & 0x3F;
    assert(seq == header / 64) by (bit_vector)
        requires
            seq == (header & 0xC0) >> 6,
    ;
    assert(len == header % 64) by (bit_vector)
        requires
            len == header & 0x3F,
    ;
    if len == 0 {
        len = 128;
    } else {
        len = len * 2;
    }
    PacketHeader { sequence_number: seq, expected_length: len }
}

/// Reads the block header at `pos`, if the buffer holds a whole one there.
pub fn read_block_header(dtvcc: &Dtvcc, pos: usize) -> (header: Option<BlockHeader>)
    ensures
        header == if block_header_fits(dtvcc@.bytes, pos as int) {
            Some(block_header(dtvcc@.bytes, pos as int))
        } else {
            None
        },
        block_header_fits(dtvcc@.bytes, pos as int) && has_extended_service(
            dtvcc@.bytes[pos as int],
        ) ==> header == Some(
            (BlockHeader {
                service_number: (dtvcc@.bytes[pos + 1] as int % 64) as u8,
                block_length: (dtvcc@.bytes[pos as int] as int % 32) as u8,
                header_length: 2,
            }),
        ),
{
    let n: usize = dtvcc.current_packet.len();
    if pos >= n {
        return None;
    }
    let first: u8 = dtvcc.current_packet[pos];
    let mut service_number: u8 = (first & 0xE0) >> 5;
    let block_length: u8 = first & 0x1F;
    let mut header_length: u8 = 1;
    assert(service_number == first / 32) by (bit_vector)
        requires
            service_number == (first & 0xE0) >> 5,
    ;
    assert(block_length == first % 32) by (bit_vector)
        requires
            block_length == first & 0x1F,
    ;

    if service_number == 7 {
        if pos + 1 >= n {
            return None;
        }
        let second: u8 = dtvcc.current_packet[pos + 1];
        service_number = second & 0x3F;
        assert(service_number == second % 64) by (bit_vector)
            requires
                service_number == second & 0x3F,
        ;
        header_length = 2;
    }
    Some(BlockHeader { service_number, block_length, header_length })
}

/// Finalizes the packet: walks its service blocks up to the resolved length,
/// logs the commands of each block that belongs to a service, and leaves the
/// packet empty. A packet without bytes, or one for which the assembler
/// counted none, is left as it is and nothing is logged.
pub fn ccx_dtvcc_process_current_packet(dtvcc: &mut Dtvcc, events: &mut Vec<Event>)
    ensures
        final(dtvcc)@ == finalized(old(dtvcc)@),
        final(events)@ == old(events)@ + finalize_events(old(dtvcc)@),
        old(dtvcc)@.bytes.len() == 0 ==> final(dtvcc)@ == old(dtvcc)@ && final(events)@ == old(
            events,
        )@,
{
    if dtvcc.current_packet.len() > 0 {
        let header: PacketHeader = read_packet_header(dtvcc.current_packet[0]);
        let mut len: u8 = header.expected_length;

        if dtvcc.current_packet_length == 0 {
            return;
        }
        if dtvcc.current_packet_length != len {
            len = dtvcc.current_packet_length;
        }
        let end: usize = len as usize;
        let mut pos: usize = 1;
        while pos < end
            invariant_except_break
                events@ + packet_events_from(dtvcc@.bytes, end as int, pos as int) == old(events)@
                    + packet_events_from(dtvcc@.bytes, end as int, 1),
            invariant
                *dtvcc == *old(dtvcc),
                end <= 255,
            ensures
                events@ == old(events)@ + packet_events_from(dtvcc@.bytes, end as int, 1),
            decreases
                if pos < end {
                    end - pos
                } else {
                    0
                },
        {
            let block: BlockHeader = match read_block_header(dtvcc, pos) {
                Some(block) => block,
                None => {
                    break;
                },
            };
            pos += block.header_length as usize;

            if block.service_number == 0 && block.block_length != 0 {
                events.push(Event::Warning(Warning::IllegalServiceBlock));
                break;
            }
            if block.service_number > 0 {
                ccx_dtvcc_process_service_block(dtvcc, pos, block.block_length, events);
            }
            pos += block.block_length as usize;
        }

        dtvcc.current_packet = Vec::new();
        dtvcc.current_packet_length = 0;
    }
}

/// The packet with one payload added: the assembler counts two bytes for
/// it.
pub open spec fn appended(packet: Packet, data: Seq<u8>) -> Packet {
    Packet { bytes: packet.bytes + data, declared_length: packet.declared_length + 2 }
}

/// The packet that a triplet leaves. A triplet of type 2 that is not valid
/// finalizes the packet; a valid one adds its payload unless the assembler
/// has counted more than 253 bytes. A triplet of type 3 finalizes the
/// packet and then, where its validity is 1, adds its payload unless more
/// than 127 bytes are still counted. Any other type changes nothing.
pub open spec fn submitted(packet: Packet, cc_valid: u8, cc_type: u8, data: Seq<u8>) -> Packet {
    if cc_type == 2 {
        if cc_valid == 0 {
            finalized(packet)
        } else if packet.declared_length > MAX_LENGTH_BEFORE_DATA {
            packet
        } else {
            appended(packet, data)
        }
    } else if cc_type == 3 {
        if cc_valid != 1 || finalized(packet).declared_length > MAX_LENGTH_BEFORE_START {
            finalized(packet)
        } else {
            appended(finalized(packet), data)
        }
    } else {
        packet
    }
}

/// What the log receives for a triplet: the events of the packet that it
/// finalizes, and a warning where its payload is dropped.
pub open spec fn submit_events(packet: Packet, cc_valid: u8, cc_type: u8) -> Seq<Event> {
    if cc_type == 2 {
        if cc_valid == 0 {
            finalize_events(packet)
        } else if packet.declared_length > MAX_LENGTH_BEFORE_DATA {
            seq![Event::Warning(Warning::OversizeData)]
        } else {
            Seq::empty()
        }
    } else if cc_type == 3 {
        if cc_valid == 1 && finalized(packet).declared_length > MAX_LENGTH_BEFORE_START {
            finalize_events(packet).push(Event::Warning(Warning::OversizeStart))
        } else {
            finalize_events(packet)
        }
    } else {
        Seq::empty()
    }
}

/// Takes one caption triplet: its validity, its type and its two payload
/// bytes. Type 2 continues the packet under assembly, or finalizes it where
/// the triplet is not valid; type 3 finalizes it and starts the next. No
/// triplet is refused: a payload that does not fit is dropped with a
/// warning. The exclusive borrow of the decoder keeps the triplets in
/// order: each is taken to its end before the next.
pub fn ccx_dtvcc_process_data(
    decoder: &mut Decoder,
    cc_valid: u8,
    cc_type: u8,
    data: &[u8],
    events: &mut Vec<Event>,
) -> (done: Result<(), DecodeError>)
    ensures
        done is Ok,
        final(decoder)@ == submitted(old(decoder)@, cc_valid, cc_type, data@),
        final(events)@ == old(events)@ + submit_events(old(decoder)@, cc_valid, cc_type),
{
    let dtvcc = &mut decoder.dtvcc;
    if cc_type == 2 {
        if cc_valid == 0 {
            ccx_dtvcc_process_current_packet(dtvcc, events);
        } else {
            if dtvcc.current_packet_length > MAX_LENGTH_BEFORE_DATA {
                events.push(Event::Warning(Warning::OversizeData));
            } else {
                let ghost before: Seq<u8> = dtvcc.current_packet@;
                dtvcc.current_packet.extend_from_slice(data);
                dtvcc.current_packet_length += 2;
                assert(dtvcc.current_packet@ =~= before + data@);
            }
        }
    } else if cc_type == 3 {
        ccx_dtvcc_process_current_packet(dtvcc, events);
        if cc_valid == 1 {
            if dtvcc.current_packet_length > MAX_LENGTH_BEFORE_START {
                events.push(Event::Warning(Warning::OversizeStart));
            } else {
                let ghost before: Seq<u8> = dtvcc.current_packet@;
                dtvcc.current_packet.extend_from_slice(data);
                dtvcc.current_packet_length += 2;
                assert(dtvcc.current_packet@ =~= before + data@);
            }
        }
    }

    Ok(())
}

} // verus!
