use mpegts_lib::AdaptationFieldControl;
use mpegts_lib::AdaptationFiled;
use mpegts_lib::FormatError;
use mpegts_lib::Packet;
use mpegts_lib::PatTable;
use mpegts_lib::Section;
use mpegts_lib::TransportScramblingControl;

#[test]
fn it_works() {
    assert_eq!(2 + 2, 4);
}

fn packet_bytes(b1: u8, b2: u8, b3: u8) -> Vec<u8> {
    let mut buf = vec![0u8; 188];
    buf[0] = 0x47;
    buf[1] = b1;
    buf[2] = b2;
    buf[3] = b3;
    buf
}

#[test]
fn new_rejects_wrong_length() {
    let short = vec![0x47u8; 187];
    assert_eq!(Packet::new(&short).err(), Some(FormatError::BadSync));
    let long = vec![0x47u8; 189];
    assert_eq!(Packet::new(&long).err(), Some(FormatError::BadSync));
    let empty: Vec<u8> = Vec::new();
    assert_eq!(Packet::new(&empty).err(), Some(FormatError::BadSync));
}

#[test]
fn new_rejects_wrong_sync_byte() {
    let mut buf = vec![0u8; 188];
    buf[0] = 0x46;
    assert_eq!(Packet::new(&buf).err(), Some(FormatError::BadSync));
    assert!(!Packet::is_sync_byte(0x46));
    assert!(Packet::is_sync_byte(0x47));
}

#[test]
fn payload_only_packet_header() {
    // [0x47, 0x40, 0x00, 0x10, ...184 zero bytes]
    let buf = packet_bytes(0x40, 0x00, 0x10);
    let p = Packet::new(&buf).unwrap();
    assert!(p.payload_unit_start_indicator());
    assert_eq!(p.pid(), 0);
    assert_eq!(
        p.adaptation_filed_control(),
        AdaptationFieldControl::NoAdaptationfieldPayloadOnly
    );
    assert!(p.adaptation_filed().is_none());
    assert_eq!(p.adaptation_filed_length(), 0);
    assert!(!p.transport_error_indicator());
    assert!(!p.transport_priority());
    assert_eq!(p.continuity_counter(), 0);
    // Payload starts after the 4 header bytes and the pointer_field byte.
    let payload = p.payload_psi().unwrap();
    assert_eq!(payload.len(), 183);
}

#[test]
fn pid_and_continuity_counter_stay_in_range() {
    let buf = packet_bytes(0xff, 0xff, 0xff);
    let p = Packet::new(&buf).unwrap();
    assert_eq!(p.pid(), 0x1fff);
    assert!(p.pid() <= 8191);
    assert_eq!(p.continuity_counter(), 15);
    assert!(p.transport_error_indicator());
    assert!(p.payload_unit_start_indicator());
    assert!(p.transport_priority());
}

#[test]
fn scrambling_control_codes() {
    let clear_buf = packet_bytes(0, 0, 0x10);
    let clear = Packet::new(&clear_buf).unwrap();
    assert_eq!(
        clear.transport_scrambling_control(),
        TransportScramblingControl::NOTSCRAMBLED
    );
    let reserved_buf = packet_bytes(0, 0, 0x50);
    let reserved = Packet::new(&reserved_buf).unwrap();
    assert_eq!(
        reserved.transport_scrambling_control(),
        TransportScramblingControl::UNKNOWN
    );
    let even_buf = packet_bytes(0, 0, 0x90);
    let scrambled_even = Packet::new(&even_buf).unwrap();
    assert_eq!(
        scrambled_even.transport_scrambling_control(),
        TransportScramblingControl::SCRAMBLED
    );
    let odd_buf = packet_bytes(0, 0, 0xd0);
    let scrambled_odd = Packet::new(&odd_buf).unwrap();
    assert_eq!(
        scrambled_odd.transport_scrambling_control(),
        TransportScramblingControl::SCRAMBLED
    );
}

#[test]
fn reserved_adaptation_control_yields_reserved_value() {
    // Bits 5-4 of byte 3 are 00: the reserved adaptation field control.
    let buf = packet_bytes(0x00, 0x00, 0x00);
    let p = Packet::new(&buf).unwrap();
    assert_eq!(p.adaptation_filed_control(), AdaptationFieldControl::Unknown);
    assert!(p.adaptation_filed().is_none());
    assert_eq!(p.payload_psi().err(), Some(FormatError::ReservedValue));
}

#[test]
fn oversized_adaptation_field_truncates_payload() {
    // Adaptation field declares 200 bytes: 4 + 1 + 200 > 188.
    let mut buf = packet_bytes(0x00, 0x00, 0x30);
    buf[4] = 200;
    let p = Packet::new(&buf).unwrap();
    assert_eq!(p.adaptation_filed_length(), 200);
    assert_eq!(p.payload_psi().err(), Some(FormatError::Truncated));
}

#[test]
fn adaptation_field_pcr_round_trip() {
    // Only the PCR flag set; the 6 PCR bytes sit at [2, 8) of the region.
    let mut buf = packet_bytes(0x00, 0x00, 0x30);
    buf[4] = 7; // declared length: flags byte + 6 PCR bytes
    buf[5] = 0x10; // pcr_flag only
    for i in 0..6 {
        buf[6 + i] = (i + 1) as u8;
    }
    let p = Packet::new(&buf).unwrap();
    let af = p.adaptation_filed().unwrap();
    assert_eq!(af.length(), 7);
    assert!(af.pcr_flag());
    assert!(!af.opcr_flag());
    assert_eq!(af.pcr_bytes().unwrap(), Some(&[1u8, 2, 3, 4, 5, 6][..]));
    assert_eq!(af.opcr_bytes().unwrap(), None);
    assert_eq!(af.splice_countdown_byte().unwrap(), None);
    assert_eq!(af.transport_private_date_bytes().unwrap(), None);
    assert_eq!(af.adaptation_extension_bytes().unwrap(), None);
}

#[test]
fn adaptation_field_all_sub_fields() {
    // length byte, flags, PCR 6, OPCR 6, splice 1, private 1+2, extension 1+1.
    let region: Vec<u8> = vec![
        19, 0x1f, // declared length and flags: all five sub-fields present
        1, 2, 3, 4, 5, 6, // PCR
        7, 8, 9, 10, 11, 12, // OPCR
        13, // splice countdown
        2, 0xaa, 0xbb, // private data: length byte and two data bytes
        1, 0xcc, // extension: length byte and one byte
    ];
    let af = AdaptationFiled::new(&region).unwrap();
    assert_eq!(af.length(), 19);
    assert!(af.discontinuity_indicator() == false);
    assert!(af.random_access_indicator() == false);
    assert!(af.elementary_stream_priority_indicator() == false);
    assert!(af.pcr_flag());
    assert!(af.opcr_flag());
    assert!(af.splicing_point_flag());
    assert!(af.transport_private_data_flag());
    assert!(af.adaptation_field_extension_flag());
    assert_eq!(af.pcr_bytes().unwrap(), Some(&[1u8, 2, 3, 4, 5, 6][..]));
    assert_eq!(af.opcr_bytes().unwrap(), Some(&[7u8, 8, 9, 10, 11, 12][..]));
    assert_eq!(af.splice_countdown_byte().unwrap(), Some(&[13u8][..]));
    assert_eq!(
        af.transport_private_date_bytes().unwrap(),
        Some(&[2u8, 0xaa, 0xbb][..])
    );
    assert_eq!(af.adaptation_extension_bytes().unwrap(), Some(&[1u8, 0xcc][..]));
}

#[test]
fn later_flag_never_moves_earlier_field() {
    // Same PCR, once without and once with the extension flag also set:
    // the PCR stays at [2, 8).
    let without: Vec<u8> = vec![10, 0x10, 1, 2, 3, 4, 5, 6, 0, 0, 0];
    let with_ext: Vec<u8> = vec![10, 0x11, 1, 2, 3, 4, 5, 6, 1, 0xee, 0];
    let a = AdaptationFiled::new(&without).unwrap();
    let b = AdaptationFiled::new(&with_ext).unwrap();
    assert_eq!(a.pcr_bytes().unwrap(), b.pcr_bytes().unwrap());
    // And the splice countdown is unmoved by the private data flag of a
    // later field being set in another region with the same earlier flags.
    let splice_only: Vec<u8> = vec![4, 0x04, 42, 0, 0];
    let s = AdaptationFiled::new(&splice_only).unwrap();
    assert_eq!(s.splice_countdown_byte().unwrap(), Some(&[42u8][..]));
}

#[test]
fn adaptation_field_rejects_short_declared_length() {
    // PCR flag set but the declared length (3) cannot hold 6 PCR bytes.
    let region: Vec<u8> = vec![3, 0x10, 1, 2, 3];
    let af = AdaptationFiled::new(&region).unwrap();
    assert_eq!(af.pcr_bytes().err(), Some(FormatError::Truncated));
}

#[test]
fn adaptation_field_rejects_short_buffer() {
    // Declared length 7 and PCR flag set, but the buffer ends early.
    let region: Vec<u8> = vec![7, 0x10, 1, 2];
    let af = AdaptationFiled::new(&region).unwrap();
    assert_eq!(af.pcr_bytes().err(), Some(FormatError::Truncated));
}

#[test]
fn adaptation_field_zero_length_has_no_sub_fields() {
    let region: Vec<u8> = vec![0];
    let af = AdaptationFiled::new(&region).unwrap();
    assert_eq!(af.length(), 0);
    assert_eq!(af.pcr_bytes().unwrap(), None);
    assert_eq!(af.opcr_bytes().unwrap(), None);
    assert_eq!(af.splice_countdown_byte().unwrap(), None);
    assert_eq!(af.transport_private_date_bytes().unwrap(), None);
    assert_eq!(af.adaptation_extension_bytes().unwrap(), None);
}

#[test]
fn adaptation_field_new_rejects_empty_region() {
    let empty: Vec<u8> = Vec::new();
    assert_eq!(AdaptationFiled::new(&empty).err(), Some(FormatError::Truncated));
}

#[test]
fn section_header_fields() {
    let body: Vec<u8> = vec![0x00, 0xb0, 0x0d, 0x00, 0x01];
    let s = Section::new(&body).unwrap();
    assert_eq!(s.table_id(), 0x00);
    assert!(s.section_syntax_indicator());
    assert!(!s.private_indicator());
    assert_eq!(s.section_length(), 13);
    assert!(s.section_length() <= 4095);
}

#[test]
fn section_new_rejects_short_buffer() {
    let body: Vec<u8> = vec![0x00, 0xb0];
    assert_eq!(Section::new(&body).err(), Some(FormatError::Truncated));
}

#[test]
fn pat_single_program() {
    // section_length 13 but only one whole entry in the buffer: the
    // decode truncates to the entries actually present.
    let body: Vec<u8> = vec![
        0x00, 0xb0, 0x0d, 0x00, 0x01, 0xc1, 0x00, 0x00, 0x00, 0x01, 0xe0, 0x20,
    ];
    let t = PatTable::parse(&body).unwrap();
    assert_eq!(t.transport_stream_id, 1);
    assert_eq!(t.version, 0);
    assert!(t.current_next_indicator);
    assert_eq!(t.section_number, 0);
    assert_eq!(t.last_section_number, 0);
    assert_eq!(t.entries.len(), 1);
    assert_eq!(t.entries[0].program_number, 1);
    assert_eq!(t.entries[0].pid, 0x0020);
}

#[test]
fn pat_section_length_13_gives_two_entries() {
    // The full 13 declared bytes are present: (13 - 5) / 4 = 2 entries.
    let body: Vec<u8> = vec![
        0x00, 0xb0, 0x0d, 0x00, 0x01, 0xc1, 0x00, 0x00, // header and fixed bytes
        0x00, 0x01, 0xe0, 0x20, // program 1 -> PID 0x0020
        0x00, 0x02, 0xe0, 0x21, // program 2 -> PID 0x0021
    ];
    let t = PatTable::parse(&body).unwrap();
    assert_eq!(t.entries.len(), 2);
    assert_eq!(t.entries[0].program_number, 1);
    assert_eq!(t.entries[0].pid, 0x0020);
    assert_eq!(t.entries[1].program_number, 2);
    assert_eq!(t.entries[1].pid, 0x0021);
}

#[test]
fn pat_pid_mask_discards_top_bits() {
    // PID bytes 0xFF, 0xFF decode to 0x1FFF, never 0xFFFF.
    let body: Vec<u8> = vec![
        0x00, 0xb0, 0x09, 0x00, 0x01, 0xc1, 0x00, 0x00, 0x00, 0x01, 0xff, 0xff,
    ];
    let t = PatTable::parse(&body).unwrap();
    assert_eq!(t.entries.len(), 1);
    assert_eq!(t.entries[0].pid, 0x1fff);
}

#[test]
fn pat_metadata_fields() {
    let body: Vec<u8> = vec![
        0x00, 0xb0, 0x09, 0x12, 0x34, 0xc5, 0x01, 0x02, 0x00, 0x05, 0xff, 0x01,
    ];
    let t = PatTable::parse(&body).unwrap();
    assert_eq!(t.transport_stream_id, 0x1234);
    assert_eq!(t.version, 2); // bits 5..1 of 0xC5
    assert!(t.current_next_indicator);
    assert_eq!(t.section_number, 1);
    assert_eq!(t.last_section_number, 2);
    assert_eq!(t.entries.len(), 1);
    assert_eq!(t.entries[0].program_number, 5);
    assert_eq!(t.entries[0].pid, 0x1f01);
}

#[test]
fn extension_truncated_by_private_data_length() {
    // Private data declares 10 bytes, pushing the extension past the
    // declared region of 6 bytes.
    let region: Vec<u8> = vec![6, 0x03, 10, 0, 0, 0, 0];
    let af = AdaptationFiled::new(&region).unwrap();
    assert_eq!(
        af.transport_private_date_bytes().err(),
        Some(FormatError::Truncated)
    );
    assert_eq!(
        af.adaptation_extension_bytes().err(),
        Some(FormatError::Truncated)
    );
}

#[test]
fn pat_rejects_partial_entry_length() {
    // section_length 12: (12 - 5) is not a multiple of 4.
    let body: Vec<u8> = vec![
        0x00, 0xb0, 0x0c, 0x00, 0x01, 0xc1, 0x00, 0x00, 0x00, 0x01, 0xe0, 0x20,
    ];
    assert_eq!(PatTable::parse(&body).err(), Some(FormatError::BadLength));
}

#[test]
fn pat_rejects_length_below_fixed_bytes() {
    // section_length 4 cannot even hold the 5 fixed bytes.
    let body: Vec<u8> = vec![0x00, 0xb0, 0x04, 0x00, 0x01, 0xc1, 0x00, 0x00];
    assert_eq!(PatTable::parse(&body).err(), Some(FormatError::BadLength));
}

#[test]
fn pat_rejects_clear_syntax_indicator() {
    let body: Vec<u8> = vec![
        0x00, 0x30, 0x0d, 0x00, 0x01, 0xc1, 0x00, 0x00, 0x00, 0x01, 0xe0, 0x20,
    ];
    assert_eq!(
        PatTable::parse(&body).err(),
        Some(FormatError::UnsupportedSyntax)
    );
}

#[test]
fn pat_rejects_buffer_without_fixed_bytes() {
    // Valid length field, but the buffer ends before the 5 fixed bytes.
    let body: Vec<u8> = vec![0x00, 0xb0, 0x05, 0x00];
    assert_eq!(PatTable::parse(&body).err(), Some(FormatError::Truncated));
}

#[test]
fn packet_to_pat_end_to_end() {
    let mut buf = vec![0u8; 188];
    buf[0] = 0x47;
    buf[1] = 0x40; // payload unit start, PID 0
    buf[2] = 0x00;
    buf[3] = 0x10; // payload only, continuity 0
    buf[4] = 0x00; // pointer_field
    let body: [u8; 16] = [
        0x00, 0xb0, 0x0d, 0x00, 0x01, 0xc1, 0x00, 0x00, 0x00, 0x01, 0xe0, 0x20, 0x00, 0x02,
        0xe0, 0x21,
    ];
    buf[5..21].copy_from_slice(&body);
    let p = Packet::new(&buf).unwrap();
    assert_eq!(p.pid(), 0);
    assert!(p.payload_unit_start_indicator());
    let payload = p.payload_psi().unwrap();
    assert_eq!(payload.len(), 183);
    let s = Section::new(payload).unwrap();
    assert_eq!(s.table_id(), 0x00);
    assert!(s.section_syntax_indicator());
    assert_eq!(s.section_length(), 13);
    let t = PatTable::parse(payload).unwrap();
    assert_eq!(t.entries.len(), 2);
    assert_eq!(t.entries[0].program_number, 1);
    assert_eq!(t.entries[0].pid, 0x0020);
    assert_eq!(t.entries[1].program_number, 2);
    assert_eq!(t.entries[1].pid, 0x0021);
}
