//! Decoder for CEA-708 (DTVCC) closed-caption command streams.
//!
//! Caption triplets are gathered into packets ([`decoder::ccx_dtvcc_process_data`]),
//! each finished packet is split into service blocks
//! ([`decoder::ccx_dtvcc_process_current_packet`]), and each block is walked
//! command by command ([`decoder::ccx_dtvcc_process_service_block`]). The
//! decoder accounts for the bytes that every command occupies and appends
//! what it saw to a log of [`event::Event`] values; it renders nothing.
//!
//! No input stops the decoder, and none makes it read outside the packet:
//!
//! - an opcode that no table holds is logged as a warning and counts for no
//!   bytes; the walk of the block goes on one byte behind it;
//! - a block, a block header or an escape that would reach past the bytes
//!   of the packet is taken as far as those bytes go;
//! - a block of service 0 that has content ends the walk of its packet with
//!   a warning.
//!
//! The contracts are stated over [`decoder::Packet`], the view of the packet
//! under assembly, and over sequences of events; [`lemmas`] holds what
//! follows from them for every input.
pub mod commands;
pub mod decoder;
pub mod error;
pub mod event;
pub mod lemmas;
pub mod rcwt;
