use vstd::prelude::*;
use crate::commands::{
    c0_command,
    c0_length,
    c1_command,
    c1_length,
    c3_length,
    extended_events,
    extended_length,
    C0Commands,
    C1Commands,
};
use crate::decoder::{
    appended,
    block_events,
    block_events_from,
    block_header,
    block_header_fits,
    expected_length,
    finalize_events,
    finalized,
    has_extended_service,
    is_consistent,
    is_pending,
    length_field,
    packet_events_from,
    resolved_length,
    step_events,
    step_length,
    submit_events,
    submitted,
    walk_length,
    Packet,
    EXT1,
};
use crate::event::{Event, Warning};
use crate::rcwt::{carries_caption, parsed};

verus! {

/// A length field of 0 announces 128 bytes. No header announces an empty
/// packet: every announced length is even and lies between 2 and 128.
pub proof fn lemma_zero_length_field_is_128(header: u8)
    ensures
        length_field(header) == 0 ==> expected_length(header) == 128,
        length_field(header) != 0 ==> expected_length(header) == 2 * length_field(header),
        2 <= expected_length(header) <= 128,
        expected_length(header) % 2 == 0,
{
}

/// Whatever the header announces, a packet is walked up to the length that
/// the assembler counted.
pub proof fn lemma_resolved_length_is_declared(header: u8, declared_length: nat)
    ensures
        resolved_length(header, declared_length) == declared_length,
{
}

/// Where the header's length field and the assembler's count agree, the
/// walk covers the announced length less the header byte: it starts behind
/// the header and goes up to the announced length.
pub proof fn lemma_agreeing_lengths_walk(packet: Packet)
    requires
        is_pending(packet),
        packet.declared_length == expected_length(packet.bytes[0]),
    ensures
        walk_length(packet) == expected_length(packet.bytes[0]) - 1,
        finalize_events(packet) == packet_events_from(
            packet.bytes,
            expected_length(packet.bytes[0]),
            1,
        ),
{
}

/// Finalizing an empty packet does nothing, and finalizing twice is
/// finalizing once: the second time nothing is logged and nothing changes.
pub proof fn lemma_finalize_is_idempotent(packet: Packet)
    ensures
        packet.bytes.len() == 0 ==> finalized(packet) == packet && finalize_events(packet)
            == Seq::<Event>::empty(),
        finalized(finalized(packet)) == finalized(packet),
        finalize_events(finalized(packet)) == Seq::<Event>::empty(),
{
}

/// The C0 table names each of its commands once: a byte stands for a
/// command exactly where it is the command's opcode, and the table holds
/// the eight opcodes and no other byte.
pub proof fn lemma_c0_table_inverts_opcode(code: u8, command: C0Commands)
    ensures
        c0_command(code) == Some(command) <==> command.opcode() == code,
        c0_command(command.opcode()) == Some(command),
        c0_command(code) is Some <==> c0_length(code) != 0,
{
}

/// The C1 table names each of its commands once: a byte stands for a
/// command exactly where it is the command's opcode, and the table holds
/// the whole of 0x80..=0x9F and no other byte.
pub proof fn lemma_c1_table_inverts_opcode(code: u8, command: C1Commands)
    ensures
        c1_command(code) == Some(command) <==> command.opcode() == code,
        c1_command(command.opcode()) == Some(command),
        c1_command(code) is Some <==> 0x80 <= code <= 0x9F,
        c1_command(code) is Some <==> c1_length(code) != 0,
{
}

/// The cursor always moves: by at least one byte and by at most seven.
pub proof fn lemma_step_moves(bytes: Seq<u8>, pos: int)
    requires
        0 <= pos < bytes.len(),
    ensures
        1 <= step_length(bytes, pos) <= 7,
{
}

/// Whether the walk of a block is at cursor `i` on a byte of the buffer.
pub open spec fn walk_is_at(bytes: Seq<u8>, start: int, block_length: int, i: int) -> bool {
    0 <= start && 0 <= i < block_length && start + i < bytes.len()
}

/// A byte of 0x00..=0x1F other than the escape is looked up in the C0
/// table. Where the table holds it, the command is logged and the walk goes
/// on behind the table's length; where it does not, a warning is logged and
/// the walk goes on behind the one byte.
pub proof fn lemma_c0_step(bytes: Seq<u8>, start: int, block_length: int, i: int)
    requires
        walk_is_at(bytes, start, block_length, i),
        bytes[start + i] <= 0x1F,
        bytes[start + i] != EXT1,
    ensures
        c0_command(bytes[start + i]) is Some ==> step_length(bytes, start + i) == c0_length(
            bytes[start + i],
        ) && block_events_from(bytes, start, block_length, i) == seq![
            Event::C0(c0_command(bytes[start + i]).unwrap()),
        ] + block_events_from(bytes, start, block_length, i + c0_length(bytes[start + i])),
        c0_command(bytes[start + i]) is None ==> step_length(bytes, start + i) == 1
            && block_events_from(bytes, start, block_length, i) == seq![
            Event::Warning(Warning::InvalidCommand),
        ] + block_events_from(bytes, start, block_length, i + 1),
{
}

/// A byte of 0x80..=0x9F is a C1 command: it is logged, and the walk goes on
/// behind the table's length, which is never 0.
pub proof fn lemma_c1_step(bytes: Seq<u8>, start: int, block_length: int, i: int)
    requires
        walk_is_at(bytes, start, block_length, i),
        0x80 <= bytes[start + i] <= 0x9F,
    ensures
        c1_command(bytes[start + i]) is Some,
        1 <= c1_length(bytes[start + i]) <= 7,
        step_length(bytes, start + i) == c1_length(bytes[start + i]),
        block_events_from(bytes, start, block_length, i) == seq![
            Event::C1(c1_command(bytes[start + i]).unwrap()),
        ] + block_events_from(bytes, start, block_length, i + c1_length(bytes[start + i])),
{
}

/// A byte of 0x20..=0x7F is a character of G0 and a byte of 0xA0..=0xFF one
/// of G1: it is logged, and the walk goes on behind the one byte.
pub proof fn lemma_character_step(bytes: Seq<u8>, start: int, block_length: int, i: int)
    requires
        walk_is_at(bytes, start, block_length, i),
        0x20 <= bytes[start + i] <= 0x7F || 0xA0 <= bytes[start + i],
    ensures
        step_length(bytes, start + i) == 1,
        bytes[start + i] <= 0x7F ==> block_events_from(bytes, start, block_length, i) == seq![
            Event::G0(bytes[start + i]),
        ] + block_events_from(bytes, start, block_length, i + 1),
        bytes[start + i] >= 0xA0 ==> block_events_from(bytes, start, block_length, i) == seq![
            Event::G1(bytes[start + i]),
        ] + block_events_from(bytes, start, block_length, i + 1),
{
}

/// The escape is taken before any table is consulted: only the extended code
/// behind it is logged, and the walk goes on behind the escape's one byte
/// and the length of that code. Where the buffer ends with the escape,
/// nothing is logged and the walk ends.
pub proof fn lemma_escape_step(bytes: Seq<u8>, start: int, block_length: int, i: int)
    requires
        walk_is_at(bytes, start, block_length, i),
        bytes[start + i] == EXT1,
    ensures
        start + i + 1 < bytes.len() ==> step_length(bytes, start + i) == 1 + extended_length(
            bytes[start + i + 1],
        ) && block_events_from(bytes, start, block_length, i) == extended_events(
            bytes[start + i + 1],
        ) + block_events_from(
            bytes,
            start,
            block_length,
            i + 1 + extended_length(bytes[start + i + 1]),
        ),
        start + i + 1 == bytes.len() ==> step_length(bytes, start + i) == 1 && block_events_from(
            bytes,
            start,
            block_length,
            i,
        ) == Seq::<Event>::empty(),
{
    if start + i + 1 == bytes.len() {
        assert(block_events_from(bytes, start, block_length, i + 1) == Seq::<Event>::empty());
        assert(block_events_from(bytes, start, block_length, i) =~= Seq::<Event>::empty());
    }
}

/// A reserved C3 code behind an escape counts for no bytes: it is logged
/// with a warning, and the walk goes on at the code itself.
pub proof fn lemma_reserved_c3_step(bytes: Seq<u8>, start: int, block_length: int, i: int)
    requires
        walk_is_at(bytes, start, block_length, i),
        start + i + 1 < bytes.len(),
        bytes[start + i] == EXT1,
        0x90 <= bytes[start + i + 1] <= 0x9F,
    ensures
        c3_length(bytes[start + i + 1]) == 0,
        step_length(bytes, start + i) == 1,
        block_events_from(bytes, start, block_length, i) == seq![
            Event::C3(bytes[start + i + 1]),
            Event::Warning(Warning::OutOfRange),
        ] + block_events_from(bytes, start, block_length, i + 1),
{
}

/// No step of a walk logs the escape as a C0 command.
pub proof fn lemma_step_never_logs_escape(bytes: Seq<u8>, pos: int)
    requires
        0 <= pos < bytes.len(),
    ensures
        !step_events(bytes, pos).contains(Event::C0(C0Commands::EXT1)),
{
    let events: Seq<Event> = step_events(bytes, pos);
    assert forall|k: int| 0 <= k < events.len() implies events[k] != Event::C0(
        C0Commands::EXT1,
    ) by {}
}

/// No walk of a service block logs the escape as a C0 command.
pub proof fn lemma_block_never_logs_escape(bytes: Seq<u8>, start: int, block_length: int, i: int)
    ensures
        !block_events_from(bytes, start, block_length, i).contains(Event::C0(C0Commands::EXT1)),
    decreases
        if i < block_length {
            block_length - i
        } else {
            0
        },
{
    if 0 <= start && 0 <= i < block_length && start + i < bytes.len() {
        let head: Seq<Event> = step_events(bytes, start + i);
        let tail: Seq<Event> = block_events_from(
            bytes,
            start,
            block_length,
            i + step_length(bytes, start + i),
        );
        lemma_step_never_logs_escape(bytes, start + i);
        lemma_block_never_logs_escape(bytes, start, block_length, i + step_length(bytes, start + i));
        assert forall|k: int| 0 <= k < (head + tail).len() implies (head + tail)[k] != Event::C0(
            C0Commands::EXT1,
        ) by {
            if k < head.len() {
                assert(head.contains(head[k]));
            } else {
                assert(tail.contains(tail[k - head.len()]));
            }
        }
    }
}

/// A block header whose three high bits are 7 takes one more byte, and the
/// six low bits of that byte are the service number.
pub proof fn lemma_extended_service_header(bytes: Seq<u8>, pos: int)
    requires
        block_header_fits(bytes, pos),
        has_extended_service(bytes[pos]),
    ensures
        block_header(bytes, pos).header_length == 2,
        block_header(bytes, pos).service_number == bytes[pos + 1] % 64,
        block_header(bytes, pos).block_length == bytes[pos] % 32,
{
}

/// Behind a block header with an extended service number other than 0, the
/// block's content starts two bytes behind the header's first byte, and the
/// next header follows the content.
pub proof fn lemma_extended_service_block(bytes: Seq<u8>, end: int, pos: int)
    requires
        pos < end,
        block_header_fits(bytes, pos),
        has_extended_service(bytes[pos]),
        bytes[pos + 1] % 64 != 0,
    ensures
        packet_events_from(bytes, end, pos) == block_events(
            bytes,
            pos + 2,
            bytes[pos] as int % 32,
        ) + packet_events_from(bytes, end, pos + 2 + bytes[pos] as int % 32),
{
}

/// A triplet with a payload of two bytes keeps the assembler's count equal
/// to the number of bytes held, and the count never passes 254.
pub proof fn lemma_submit_keeps_consistent(
    packet: Packet,
    cc_valid: u8,
    cc_type: u8,
    data: Seq<u8>,
)
    requires
        is_consistent(packet),
        packet.declared_length % 2 == 0,
        packet.declared_length <= 254,
        data.len() == 2,
    ensures
        is_consistent(submitted(packet, cc_valid, cc_type, data)),
        submitted(packet, cc_valid, cc_type, data).declared_length % 2 == 0,
        submitted(packet, cc_valid, cc_type, data).declared_length <= 254,
{
}

/// Where the assembler's count equals the number of bytes held, a valid
/// start triplet always leaves a packet that holds its payload alone, and
/// its payload is never dropped.
pub proof fn lemma_start_begins_packet(packet: Packet, data: Seq<u8>)
    requires
        is_consistent(packet),
    ensures
        submitted(packet, 1, 3, data) == appended(
            (Packet { bytes: Seq::empty(), declared_length: 0 }),
            data,
        ),
        submit_events(packet, 1, 3) == finalize_events(packet),
{
}

/// The packet's count changes only where a payload is added or the packet
/// is finalized: a dropped payload and a triplet of another type leave the
/// packet as it was.
pub proof fn lemma_dropped_payload_changes_nothing(
    packet: Packet,
    cc_valid: u8,
    cc_type: u8,
    data: Seq<u8>,
)
    ensures
        cc_type == 2 && cc_valid != 0 && packet.declared_length > 253 ==> submitted(
            packet,
            cc_valid,
            cc_type,
            data,
        ) == packet,
        cc_type != 2 && cc_type != 3 ==> submitted(packet, cc_valid, cc_type, data) == packet
            && submit_events(packet, cc_valid, cc_type) == Seq::<Event>::empty(),
{
}

/// Feeding caption data keeps the assembler's count equal to the number of
/// bytes held.
pub proof fn lemma_parse_keeps_consistent(packet: Packet, data: Seq<u8>, count: nat)
    requires
        is_consistent(packet),
        packet.declared_length % 2 == 0,
        packet.declared_length <= 254,
        3 * count <= data.len(),
    ensures
        is_consistent(parsed(packet, data, count)),
        parsed(packet, data, count).declared_length % 2 == 0,
        parsed(packet, data, count).declared_length <= 254,
    decreases count,
{
    if count > 0 {
        lemma_parse_keeps_consistent(packet, data, (count - 1) as nat);
        let at: int = 3 * (count - 1);
        if carries_caption(data[at]) {
            lemma_submit_keeps_consistent(
                parsed(packet, data, (count - 1) as nat),
                1,
                (data[at] as int % 4) as u8,
                data.subrange(at + 1, at + 3),
            );
        }
    }
}

} // verus!
