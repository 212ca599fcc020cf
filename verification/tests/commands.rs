use cea_708_decoder::commands::{
    handle_c0, handle_c1, handle_c2, handle_c3, handle_extended_char, handle_g0, handle_g1,
    C0Commands, C1Commands,
};
use cea_708_decoder::decoder::Dtvcc;
use cea_708_decoder::error::DecodeError;
use cea_708_decoder::event::{Event, Warning};

fn buffer_of(bytes: &[u8]) -> Dtvcc {
    let mut dtvcc = Dtvcc::new();
    dtvcc.current_packet = bytes.to_vec();
    dtvcc.current_packet_length = bytes.len() as u8;
    dtvcc
}

#[test]
fn c0_table_holds_eight_commands() {
    assert_eq!(C0Commands::new(0x00), Ok(C0Commands::NUL));
    assert_eq!(C0Commands::new(0x03), Ok(C0Commands::ETX));
    assert_eq!(C0Commands::new(0x08), Ok(C0Commands::BS));
    assert_eq!(C0Commands::new(0x0c), Ok(C0Commands::FF));
    assert_eq!(C0Commands::new(0x0d), Ok(C0Commands::CR));
    assert_eq!(C0Commands::new(0x0e), Ok(C0Commands::HCR));
    assert_eq!(C0Commands::new(0x10), Ok(C0Commands::EXT1));
    assert_eq!(C0Commands::new(0x18), Ok(C0Commands::P16));
    let mut known = 0;
    for code in 0..=255u8 {
        if C0Commands::new(code).is_ok() {
            known += 1;
        }
    }
    assert_eq!(known, 8);
}

#[test]
fn c0_rejects_bytes_outside_the_table() {
    assert_eq!(C0Commands::new(0x01), Err(DecodeError::InvalidCommand));
    assert_eq!(C0Commands::new(0x1f), Err(DecodeError::InvalidCommand));
    assert_eq!(C0Commands::new(0x20), Err(DecodeError::InvalidCommand));
    assert_eq!(C0Commands::new(0xff), Err(DecodeError::InvalidCommand));
}

#[test]
fn c1_table_holds_the_whole_range() {
    let expected = [
        C1Commands::CW0,
        C1Commands::CW1,
        C1Commands::CW2,
        C1Commands::CW3,
        C1Commands::CW4,
        C1Commands::CW5,
        C1Commands::CW6,
        C1Commands::CW7,
        C1Commands::CLW,
        C1Commands::DSW,
        C1Commands::HDW,
        C1Commands::TGW,
        C1Commands::DLW,
        C1Commands::DLY,
        C1Commands::DLC,
        C1Commands::RST,
        C1Commands::SPA,
        C1Commands::SPC,
        C1Commands::SPL,
        C1Commands::RSV93,
        C1Commands::RSV94,
        C1Commands::RSV95,
        C1Commands::RSV96,
        C1Commands::SWA,
        C1Commands::DF0,
        C1Commands::DF1,
        C1Commands::DF2,
        C1Commands::DF3,
        C1Commands::DF4,
        C1Commands::DF5,
        C1Commands::DF6,
        C1Commands::DF7,
    ];
    for (offset, command) in expected.iter().enumerate() {
        assert_eq!(C1Commands::new(0x80 + offset as u8), Ok(*command));
    }
}

#[test]
fn c1_rejects_bytes_outside_the_range() {
    assert_eq!(C1Commands::new(0x00), Err(DecodeError::InvalidCommand));
    assert_eq!(C1Commands::new(0x7f), Err(DecodeError::InvalidCommand));
    assert_eq!(C1Commands::new(0xa0), Err(DecodeError::InvalidCommand));
    assert_eq!(C1Commands::new(0xff), Err(DecodeError::InvalidCommand));
}

#[test]
fn handle_c0_reports_the_table_lengths() {
    let table = [
        (0x00u8, 1u8, C0Commands::NUL),
        (0x03, 1, C0Commands::ETX),
        (0x08, 1, C0Commands::BS),
        (0x0c, 1, C0Commands::FF),
        (0x0d, 1, C0Commands::CR),
        (0x0e, 1, C0Commands::HCR),
        (0x10, 2, C0Commands::EXT1),
        (0x18, 3, C0Commands::P16),
    ];
    for (code, length, command) in table {
        let mut dtvcc = buffer_of(&[0x20, code]);
        let mut events = Vec::new();
        assert_eq!(handle_c0(&mut dtvcc, 1, 1, &mut events), length);
        assert_eq!(events, vec![Event::C0(command)]);
        assert_eq!(dtvcc.current_packet, vec![0x20, code]);
        assert_eq!(dtvcc.current_packet_length, 2);
    }
}

#[test]
fn handle_c0_reports_nothing_for_an_unknown_byte() {
    for code in [0x01u8, 0x02, 0x04, 0x07, 0x09, 0x0f, 0x11, 0x17, 0x19, 0x1f] {
        let mut dtvcc = buffer_of(&[code]);
        let mut events = vec![Event::G0(0x41)];
        assert_eq!(handle_c0(&mut dtvcc, 0, 1, &mut events), 0);
        assert_eq!(
            events,
            vec![Event::G0(0x41), Event::Warning(Warning::InvalidCommand)]
        );
    }
}

#[test]
fn handle_c1_reports_the_table_lengths() {
    let lengths: [u8; 32] = [
        1, 1, 1, 1, 1, 1, 1, 1, // CW0..CW7
        2, 2, 2, 2, 2, // CLW DSW HDW TGW DLW
        2, // DLY
        1, // DLC
        1, // RST
        3, // SPA
        4, // SPC
        3, // SPL
        1, 1, 1, 1, // reserved
        5, // SWA
        7, 7, 7, 7, 7, 7, 7, 7, // DF0..DF7
    ];
    for (offset, length) in lengths.iter().enumerate() {
        let code = 0x80 + offset as u8;
        let mut dtvcc = buffer_of(&[code]);
        let mut events = Vec::new();
        assert_eq!(handle_c1(&mut dtvcc, 0, 1, &mut events), *length);
        assert_eq!(events, vec![Event::C1(C1Commands::new(code).unwrap())]);
    }
}

#[test]
fn handle_c1_reports_nothing_outside_the_range() {
    for code in [0x00u8, 0x41, 0x7f, 0xa0, 0xff] {
        let mut dtvcc = buffer_of(&[code]);
        let mut events = Vec::new();
        assert_eq!(handle_c1(&mut dtvcc, 0, 1, &mut events), 0);
        assert_eq!(events, vec![Event::Warning(Warning::InvalidCommand)]);
    }
}

#[test]
fn backspace_takes_one_byte_and_define_window_seven() {
    let mut dtvcc = buffer_of(&[0x08, 0x98]);
    let mut events = Vec::new();
    assert_eq!(handle_c0(&mut dtvcc, 0, 2, &mut events), 1);
    assert_eq!(handle_c1(&mut dtvcc, 1, 1, &mut events), 7);
    assert_eq!(
        events,
        vec![Event::C0(C0Commands::BS), Event::C1(C1Commands::DF0)]
    );
}

#[test]
fn characters_take_one_byte() {
    let mut dtvcc = buffer_of(&[0x41, 0xe9]);
    let mut events = Vec::new();
    assert_eq!(handle_g0(&mut dtvcc, 0, 2, &mut events), 1);
    assert_eq!(handle_g1(&mut dtvcc, 1, 1, &mut events), 1);
    assert_eq!(events, vec![Event::G0(0x41), Event::G1(0xe9)]);
}

#[test]
fn handle_c2_goes_by_the_range_of_the_code() {
    for code in 0..=255u8 {
        let expected = if code <= 0x07 {
            1
        } else if code <= 0x0f {
            2
        } else if code <= 0x17 {
            3
        } else {
            4
        };
        let mut events = Vec::new();
        assert_eq!(handle_c2(code, &mut events), expected);
        assert_eq!(events, vec![Event::C2(code)]);
    }
    let mut events = Vec::new();
    assert_eq!(handle_c2(0x00, &mut events), 1);
    assert_eq!(handle_c2(0x07, &mut events), 1);
    assert_eq!(handle_c2(0x08, &mut events), 2);
    assert_eq!(handle_c2(0x0f, &mut events), 2);
    assert_eq!(handle_c2(0x10, &mut events), 3);
    assert_eq!(handle_c2(0x17, &mut events), 3);
    assert_eq!(handle_c2(0x18, &mut events), 4);
    assert_eq!(handle_c2(0x1f, &mut events), 4);
}

#[test]
fn handle_c3_gives_lengths_to_the_first_sixteen_codes() {
    for code in 0x80..=0x87u8 {
        let mut events = Vec::new();
        assert_eq!(handle_c3(code, &mut events), 5);
        assert_eq!(events, vec![Event::C3(code)]);
    }
    for code in 0x88..=0x8fu8 {
        let mut events = Vec::new();
        assert_eq!(handle_c3(code, &mut events), 6);
        assert_eq!(events, vec![Event::C3(code)]);
    }
}

#[test]
fn handle_c3_warns_on_the_reserved_codes() {
    for code in 0x90..=0x9fu8 {
        let mut events = Vec::new();
        assert_eq!(handle_c3(code, &mut events), 0);
        assert_eq!(
            events,
            vec![Event::C3(code), Event::Warning(Warning::OutOfRange)]
        );
    }
}

#[test]
fn handle_c3_warns_outside_its_set() {
    let mut events = Vec::new();
    assert_eq!(handle_c3(0x7f, &mut events), 5);
    assert_eq!(handle_c3(0xa0, &mut events), 0);
    assert_eq!(
        events,
        vec![
            Event::C3(0x7f),
            Event::Warning(Warning::OutOfRange),
            Event::C3(0xa0),
            Event::Warning(Warning::OutOfRange),
        ]
    );
}

#[test]
fn extended_codes_split_into_four_sets() {
    let cases = [
        (0x00u8, 1u8, vec![Event::C2(0x00)]),
        (0x0a, 2, vec![Event::C2(0x0a)]),
        (0x12, 3, vec![Event::C2(0x12)]),
        (0x1f, 4, vec![Event::C2(0x1f)]),
        (0x20, 1, vec![Event::G2(0x20)]),
        (0x7f, 1, vec![Event::G2(0x7f)]),
        (0x80, 5, vec![Event::C3(0x80)]),
        (0x8f, 6, vec![Event::C3(0x8f)]),
        (
            0x9f,
            0,
            vec![Event::C3(0x9f), Event::Warning(Warning::OutOfRange)],
        ),
        (0xa0, 1, vec![Event::G3(0xa0)]),
        (0xff, 1, vec![Event::G3(0xff)]),
    ];
    for (code, length, expected) in cases {
        let mut dtvcc = buffer_of(&[0x10, code]);
        let mut events = Vec::new();
        assert_eq!(handle_extended_char(&mut dtvcc, 1, 1, &mut events), length);
        assert_eq!(events, expected);
    }
}
