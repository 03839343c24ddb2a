use delf::addr::Addr;
use delf::codes::Machine;
use delf::codes::SegmentType;
use delf::codes::Type;
use delf::elf::File;
use delf::parse::ParseError;
use delf::parse::ParseErrorKind;

/// A minimal valid ELF64 image: one `Load` segment whose four data bytes sit
/// right after its table entry, and an entry point inside its memory range.
fn minimal_elf() -> Vec<u8> {
    let mut b: Vec<u8> = Vec::new();
    // identification: magic, 64-bit class, little-endian, version 1, System V
    // OS/ABI, 8 bytes of padding
    b.extend_from_slice(&[0x7f, 0x45, 0x4c, 0x46, 2, 1, 1, 0]);
    b.extend_from_slice(&[0; 8]);
    b.extend_from_slice(&3u16.to_le_bytes()); // type: Dyn
    b.extend_from_slice(&0x3eu16.to_le_bytes()); // machine: X86_64
    b.extend_from_slice(&1u32.to_le_bytes()); // secondary version
    b.extend_from_slice(&0x1002u64.to_le_bytes()); // entry point
    b.extend_from_slice(&64u64.to_le_bytes()); // program-header table offset
    b.extend_from_slice(&0u64.to_le_bytes()); // section-header table offset
    b.extend_from_slice(&0u32.to_le_bytes()); // flags
    b.extend_from_slice(&64u16.to_le_bytes()); // header size
    b.extend_from_slice(&56u16.to_le_bytes()); // program-header entry size
    b.extend_from_slice(&1u16.to_le_bytes()); // program-header count
    b.extend_from_slice(&0u16.to_le_bytes()); // section-header entry size
    b.extend_from_slice(&0u16.to_le_bytes()); // section-header count
    b.extend_from_slice(&0u16.to_le_bytes()); // section-name index
    assert_eq!(b.len(), 64);
    // one program header
    b.extend_from_slice(&1u32.to_le_bytes()); // type: Load
    b.extend_from_slice(&5u32.to_le_bytes()); // flags: R-X
    b.extend_from_slice(&120u64.to_le_bytes()); // offset
    b.extend_from_slice(&0x1000u64.to_le_bytes()); // vaddr
    b.extend_from_slice(&0x1000u64.to_le_bytes()); // paddr
    b.extend_from_slice(&4u64.to_le_bytes()); // filesz
    b.extend_from_slice(&8u64.to_le_bytes()); // memsz
    b.extend_from_slice(&0x1000u64.to_le_bytes()); // align
    assert_eq!(b.len(), 120);
    b.extend_from_slice(&[0xde, 0xad, 0xbe, 0xef]);
    b
}

fn expect_err(buf: &[u8], kind: ParseErrorKind, offset: u64) {
    match File::parse(buf) {
        Err(e) => assert_eq!(e, ParseError { kind, offset }),
        Ok(_) => panic!("expected a parse failure"),
    }
}

#[test]
fn full_file_round_trip() {
    let buf = minimal_elf();
    let file = File::parse(&buf).unwrap();
    assert_eq!(file.typ, Type::Dyn);
    assert_eq!(file.machine, Machine::X86_64);
    assert_eq!(file.entry_point, Addr(0x1002));
    assert_eq!(file.program_headers.len(), 1);
    let ph = &file.program_headers[0];
    assert_eq!(ph.typ, SegmentType::Load);
    assert_eq!(ph.vaddr, Addr(0x1000));
    assert_eq!(ph.filesz, Addr(4));
    assert_eq!(ph.memsz, Addr(8));
    assert!(ph.flags.read && !ph.flags.write && ph.flags.execute);
    assert_eq!(ph.offset, Addr(120));
    assert_eq!(ph.align, Addr(0x1000));
    assert_eq!(ph.data, vec![0xde, 0xad, 0xbe, 0xef]);
}

#[test]
fn magic_flip_reports_magic_at_zero() {
    for i in 0..4 {
        let mut buf = minimal_elf();
        buf[i] ^= 0xff;
        expect_err(&buf, ParseErrorKind::Magic, 0);
    }
}

#[test]
fn secondary_version_mismatch_reports_its_offset() {
    let mut buf = minimal_elf();
    buf[20] = 2;
    expect_err(&buf, ParseErrorKind::VersionBis, 20);
}

#[test]
fn identification_checks_in_order() {
    expect_err(&[], ParseErrorKind::Magic, 0);
    expect_err(&[0x7f, 0x45, 0x4c], ParseErrorKind::Magic, 0);
    expect_err(&[0x7f, 0x45, 0x4c, 0x46], ParseErrorKind::Class, 4);

    let mut buf = minimal_elf();
    buf[4] = 1; // 32-bit class
    expect_err(&buf, ParseErrorKind::Class, 4);

    let mut buf = minimal_elf();
    buf[5] = 2; // big-endian
    expect_err(&buf, ParseErrorKind::Endianness, 5);

    let mut buf = minimal_elf();
    buf[6] = 0;
    expect_err(&buf, ParseErrorKind::Version, 6);

    let mut buf = minimal_elf();
    buf[7] = 1; // neither System V nor Linux
    expect_err(&buf, ParseErrorKind::OsAbi, 7);
}

#[test]
fn unknown_enumeration_values_are_reported_with_the_value() {
    let mut buf = minimal_elf();
    buf[16..18].copy_from_slice(&0xF00Du16.to_le_bytes());
    expect_err(&buf, ParseErrorKind::FileType(0xF00D), 16);

    let mut buf = minimal_elf();
    buf[18..20].copy_from_slice(&0xFAu16.to_le_bytes());
    expect_err(&buf, ParseErrorKind::Machine(0xFA), 18);

    let mut buf = minimal_elf();
    buf[64..68].copy_from_slice(&0x42u32.to_le_bytes());
    expect_err(&buf, ParseErrorKind::SegmentType(0x42), 64);

    let mut buf = minimal_elf();
    buf[68..72].copy_from_slice(&1992u32.to_le_bytes());
    expect_err(&buf, ParseErrorKind::SegmentFlags(1992), 68);
}

#[test]
fn truncated_header_reports_first_missing_field() {
    let buf = minimal_elf();
    expect_err(&buf[..10], ParseErrorKind::Truncated, 8);
    expect_err(&buf[..17], ParseErrorKind::Truncated, 16);
    expect_err(&buf[..22], ParseErrorKind::Truncated, 20);
    expect_err(&buf[..30], ParseErrorKind::Truncated, 24);
    expect_err(&buf[..55], ParseErrorKind::Truncated, 54);
    expect_err(&buf[..63], ParseErrorKind::Truncated, 62);
}

#[test]
fn truncated_table_entry_is_reported_at_its_start() {
    let buf = minimal_elf();
    expect_err(&buf[..100], ParseErrorKind::Truncated, 64);
}

#[test]
fn undersized_entry_size_is_a_truncation_fault() {
    let mut buf = minimal_elf();
    buf[54..56].copy_from_slice(&40u16.to_le_bytes());
    expect_err(&buf, ParseErrorKind::Truncated, 64);
}

#[test]
fn segment_data_must_lie_inside_the_buffer() {
    let mut buf = minimal_elf();
    buf[96..104].copy_from_slice(&200u64.to_le_bytes()); // filesz
    buf[104..112].copy_from_slice(&200u64.to_le_bytes()); // memsz
    expect_err(&buf, ParseErrorKind::SegmentBounds, 72);
}

#[test]
fn memory_size_must_cover_file_size() {
    let mut buf = minimal_elf();
    buf[104..112].copy_from_slice(&2u64.to_le_bytes()); // memsz below filesz
    expect_err(&buf, ParseErrorKind::SegmentSizes, 104);
}

#[test]
fn memory_range_must_fit_the_address_space() {
    let mut buf = minimal_elf();
    buf[80..88].copy_from_slice(&u64::MAX.to_le_bytes()); // vaddr
    expect_err(&buf, ParseErrorKind::SegmentBounds, 80);
}

#[test]
fn oversized_entries_are_tolerated_and_the_excess_ignored() {
    let mut buf = minimal_elf();
    // declare 60-byte entries and give the single entry 4 extra bytes, which
    // pushes the segment's data 4 bytes further into the file
    buf[54..56].copy_from_slice(&60u16.to_le_bytes());
    buf.splice(120..120, [0xff, 0xff, 0xff, 0xff]);
    buf[72..80].copy_from_slice(&124u64.to_le_bytes()); // offset
    let file = File::parse(&buf).unwrap();
    assert_eq!(file.program_headers.len(), 1);
    assert_eq!(file.program_headers[0].data, vec![0xde, 0xad, 0xbe, 0xef]);
}

#[test]
fn empty_table_parses_to_no_headers() {
    let mut buf = minimal_elf();
    buf[56..58].copy_from_slice(&0u16.to_le_bytes()); // program-header count
    let file = File::parse(&buf).unwrap();
    assert_eq!(file.program_headers.len(), 0);
    assert_eq!(file.find_entry_segment(), None);
}
