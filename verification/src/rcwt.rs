use vstd::prelude::*;
use vstd::slice::slice_subrange;
use crate::decoder::{ccx_dtvcc_process_data, submit_events, submitted, Decoder, Packet};
use crate::error::DecodeError;
use crate::event::Event;

verus! {

/// What the header of a caption file announces.
#[derive(Debug, Clone, Copy, PartialEq, Eq)]
pub struct FileHeader {
    pub program_version: u16,
    pub file_format: u16,
}

/// Whether a file header starts with the magic number CC CC ED CC.
pub open spec fn has_magic(buffer: Seq<u8>) -> bool {
    buffer[0] == 0xcc && buffer[1] == 0xcc && buffer[2] == 0xed && buffer[3] == 0xcc
}

/// Whether the three reserved bytes of a file header are zero.
pub open spec fn has_zero_reserved(buffer: Seq<u8>) -> bool {
    buffer[8] == 0 && buffer[9] == 0 && buffer[10] == 0
}

/// The number that two bytes hold, the high byte first.
pub open spec fn big_endian(high: u8, low: u8) -> int {
    high as int * 256 + low as int
}

/// Reads the eleven bytes of a file header: the magic number, the program
/// version and the file format, each in two bytes with the high byte first,
/// and three reserved bytes. The magic number is tested before the reserved
/// bytes.
pub fn parse_header(buffer: &[u8; 11]) -> (header: Result<FileHeader, DecodeError>)
    ensures
        header is Ok <==> has_magic(buffer@) && has_zero_reserved(buffer@),
        header is Ok ==> header.unwrap().program_version == big_endian(buffer@[4], buffer@[5])
            && header.unwrap().file_format == big_endian(buffer@[6], buffer@[7]),
        !has_magic(buffer@) ==> header == Err::<FileHeader, DecodeError>(DecodeError::BadMagic),
        has_magic(buffer@) && !has_zero_reserved(buffer@) ==> header == Err::<
            FileHeader,
            DecodeError,
        >(DecodeError::BadReserved),
{
    if buffer[0] != 0xcc || buffer[1] != 0xcc || buffer[2] != 0xed || buffer[3] != 0xcc {
        return Err(DecodeError::BadMagic);
    }
    if buffer[8] != 0 || buffer[9] != 0 || buffer[10] != 0 {
        return Err(DecodeError::BadReserved);
    }
    let program_version: u16 = (buffer[4] as u16) * 256 + buffer[5] as u16;
    let file_format: u16 = (buffer[6] as u16) * 256 + buffer[7] as u16;
    Ok(FileHeader { program_version, file_format })
}

/// The bytes of caption data behind a record header that announces `count`
/// triplets.
pub fn caption_data_length(count: u16) -> (length: usize)
    ensures
        length == 3 * count,
{
    count as usize * 3
}

/// The validity flag in the first byte of a triplet: its bit 2.
pub open spec fn triplet_valid(flags: u8) -> int {
    flags as int / 4 % 2
}

/// The type in the first byte of a triplet: its two low bits.
pub open spec fn triplet_type(flags: u8) -> int {
    flags as int % 4
}

/// Whether a triplet carries caption bytes for the decoder: it is valid and
/// of type 2 or 3.
pub open spec fn carries_caption(flags: u8) -> bool {
    triplet_valid(flags) == 1 && (triplet_type(flags) == 2 || triplet_type(flags) == 3)
}

/// Whether caption data ends inside a triplet whose first byte says that it
/// carries caption bytes.
pub open spec fn ends_in_broken_triplet(data: Seq<u8>) -> bool {
    data.len() % 3 != 0 && carries_caption(data[data.len() - data.len() % 3])
}

/// The packet that the first `count` triplets of `data` leave.
pub open spec fn parsed(packet: Packet, data: Seq<u8>, count: nat) -> Packet
    decreases count,
{
    if count == 0 {
        packet
    } else {
        let before: Packet = parsed(packet, data, (count - 1) as nat);
        let at: int = 3 * (count - 1);
        if carries_caption(data[at]) {
            submitted(before, 1, triplet_type(data[at]) as u8, data.subrange(at + 1, at + 3))
        } else {
            before
        }
    }
}

/// What the log receives for the first `count` triplets of `data`.
pub open spec fn parse_events(packet: Packet, data: Seq<u8>, count: nat) -> Seq<Event>
    decreases count,
{
    if count == 0 {
        Seq::empty()
    } else {
        let before: Packet = parsed(packet, data, (count - 1) as nat);
        let at: int = 3 * (count - 1);
        if carries_caption(data[at]) {
            parse_events(packet, data, (count - 1) as nat) + submit_events(
                before,
                1,
                triplet_type(data[at]) as u8,
            )
        } else {
            parse_events(packet, data, (count - 1) as nat)
        }
    }
}

/// Feeds caption data to the decoder, triplet by triplet: a flag byte and
/// two payload bytes each. Only valid triplets of type 2 or 3 reach the
/// decoder. Bytes behind the last whole triplet are passed over, unless the
/// first of them announces caption bytes that are not there: that is an
/// error, reported after the whole triplets have been taken.
pub fn parse_data(decoder: &mut Decoder, data: &Vec<u8>, events: &mut Vec<Event>) -> (done: Result<
    (),
    DecodeError,
>)
    ensures
        final(decoder)@ == parsed(old(decoder)@, data@, data@.len() / 3),
        final(events)@ == old(events)@ + parse_events(old(decoder)@, data@, data@.len() / 3),
        done is Err <==> ends_in_broken_triplet(data@),
        done is Err ==> done == Err::<(), DecodeError>(DecodeError::TruncatedTriplet),
{
    let bytes: &[u8] = data.as_slice();
    let n: usize = bytes.len();
    let mut at: usize = 0;
    while n - at >= 3
        invariant
            n == data@.len(),
            bytes@ == data@,
            at <= n,
            at % 3 == 0,
            decoder@ == parsed(old(decoder)@, data@, (at / 3) as nat),
            events@ == old(events)@ + parse_events(old(decoder)@, data@, (at / 3) as nat),
        decreases n - at,
    {
        let flags: u8 = bytes[at];
        let cc_valid: u8 = (flags & 4) >> 2;
        let cc_type: u8 = flags & 3;
        assert(cc_valid == flags / 4 % 2) by (bit_vector)
            requires
                cc_valid == (flags & 4) >> 2,
        ;
        assert(cc_type == flags % 4) by (bit_vector)
            requires
                cc_type == flags & 3,
        ;

        if cc_valid == 1 {
            if cc_type == 2 || cc_type == 3 {
                ccx_dtvcc_process_data(
                    decoder,
                    cc_valid,
                    cc_type,
                    slice_subrange(bytes, at + 1, at + 3),
                    events,
                )?;
            }
        }
        at += 3;
    }
    if at < n {
        let flags: u8 = bytes[at];
        let cc_valid: u8 = (flags & 4) >> 2;
        let cc_type: u8 = flags & 3;
        assert(cc_valid == flags / 4 % 2) by (bit_vector)
            requires
                cc_valid == (flags & 4) >> 2,
        ;
        assert(cc_type == flags % 4) by (bit_vector)
            requires
                cc_type == flags & 3,
        ;
        if cc_valid == 1 && (cc_type == 2 || cc_type == 3) {
            return Err(DecodeError::TruncatedTriplet);
        }
    }
    Ok(())
}

} // verus!
