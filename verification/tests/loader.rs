use delf::addr::Addr;
use delf::codes::SegmentFlags;
use delf::codes::SegmentType;
use delf::elf::File;
use delf::elf::ProgramHeader;
use delf::loader::align_lo;
use delf::loader::entry_address;
use delf::loader::plan_load;
use delf::loader::segment_image;
use delf::loader::LoadError;

/// An ELF64 image with two `Load` segments: an R-X one covering the entry
/// point and an RW data segment at an address that is not page-aligned.
fn two_segment_elf() -> Vec<u8> {
    let mut b: Vec<u8> = Vec::new();
    b.extend_from_slice(&[0x7f, 0x45, 0x4c, 0x46, 2, 1, 1, 0]);
    b.extend_from_slice(&[0; 8]);
    b.extend_from_slice(&2u16.to_le_bytes()); // type: Exec
    b.extend_from_slice(&0x3eu16.to_le_bytes()); // machine: X86_64
    b.extend_from_slice(&1u32.to_le_bytes());
    b.extend_from_slice(&0x1002u64.to_le_bytes()); // entry point
    b.extend_from_slice(&64u64.to_le_bytes()); // program-header table offset
    b.extend_from_slice(&0u64.to_le_bytes());
    b.extend_from_slice(&0u32.to_le_bytes());
    b.extend_from_slice(&64u16.to_le_bytes());
    b.extend_from_slice(&56u16.to_le_bytes()); // entry size
    b.extend_from_slice(&2u16.to_le_bytes()); // entry count
    b.extend_from_slice(&0u16.to_le_bytes());
    b.extend_from_slice(&0u16.to_le_bytes());
    b.extend_from_slice(&0u16.to_le_bytes());
    assert_eq!(b.len(), 64);
    // code segment: R-X, page-aligned, covers the entry point
    b.extend_from_slice(&1u32.to_le_bytes());
    b.extend_from_slice(&5u32.to_le_bytes()); // R-X
    b.extend_from_slice(&176u64.to_le_bytes()); // offset
    b.extend_from_slice(&0x1000u64.to_le_bytes()); // vaddr
    b.extend_from_slice(&0x1000u64.to_le_bytes());
    b.extend_from_slice(&4u64.to_le_bytes()); // filesz
    b.extend_from_slice(&4u64.to_le_bytes()); // memsz
    b.extend_from_slice(&0x1000u64.to_le_bytes());
    // data segment: RW, not page-aligned, with implied zero fill
    b.extend_from_slice(&1u32.to_le_bytes());
    b.extend_from_slice(&6u32.to_le_bytes()); // RW-
    b.extend_from_slice(&180u64.to_le_bytes()); // offset
    b.extend_from_slice(&0x2123u64.to_le_bytes()); // vaddr
    b.extend_from_slice(&0x2123u64.to_le_bytes());
    b.extend_from_slice(&2u64.to_le_bytes()); // filesz
    b.extend_from_slice(&0x10u64.to_le_bytes()); // memsz
    b.extend_from_slice(&0x1000u64.to_le_bytes());
    assert_eq!(b.len(), 176);
    b.extend_from_slice(&[0x90, 0x90, 0x90, 0xc3]); // code bytes
    b.extend_from_slice(&[0x2a, 0x07]); // data bytes
    b
}

#[test]
fn align_lo_truncates_to_page_boundary() {
    assert_eq!(align_lo(0x401005), 0x401000);
    assert_eq!(align_lo(0x401000), 0x401000);
    assert_eq!(align_lo(0xFFF), 0);
    assert_eq!(align_lo(0), 0);
}

#[test]
fn unaligned_segment_gets_aligned_start_and_padding() {
    let buf = two_segment_elf();
    let file = File::parse(&buf).unwrap();
    let base: u64 = 0x400000;
    let plan = plan_load(&file, base).unwrap();
    assert_eq!(plan.len(), 2);
    let p = &plan[1];
    assert_eq!(p.start, 0x402123);
    assert_eq!(p.aligned_start, 0x402000);
    assert!(p.aligned_start <= p.start);
    assert_eq!(p.aligned_start % 4096, 0);
    assert_eq!(p.padding, 0x123);
    assert!(p.padding < 4096);
    assert_eq!(p.total_len, 0x123 + 0x10);
}

#[test]
fn zero_fill_beyond_file_bytes() {
    let ph = ProgramHeader {
        typ: SegmentType::Load,
        flags: SegmentFlags { read: true, write: true, execute: false },
        offset: Addr(0),
        vaddr: Addr(0x2000),
        paddr: Addr(0x2000),
        filesz: Addr(3),
        memsz: Addr(10),
        align: Addr(0x1000),
        data: vec![1, 2, 3],
    };
    let image = segment_image(&ph);
    assert_eq!(image.len(), 10);
    assert_eq!(&image[..3], &[1, 2, 3]);
    for k in 3..10 {
        assert_eq!(image[k], 0);
    }
}

#[test]
fn segment_ranges_are_derived_from_the_fields() {
    let buf = two_segment_elf();
    let file = File::parse(&buf).unwrap();
    let ph = &file.program_headers[1];
    let mem = ph.mem_range();
    assert_eq!(mem.start, Addr(0x2123));
    assert_eq!(mem.end, Addr(0x2133));
    assert!(mem.contains(Addr(0x2130)));
    let fr = ph.file_range();
    assert_eq!(fr.start, Addr(180));
    assert_eq!(fr.end, Addr(182));
}

#[test]
fn end_to_end_two_segments() {
    let buf = two_segment_elf();
    let file = File::parse(&buf).unwrap();
    let base: u64 = 0x400000;

    let plan = plan_load(&file, base).unwrap();
    assert_eq!(plan.len(), 2);

    // the R-X code segment lands exactly at base + vaddr with its own bytes
    let code = &plan[0];
    assert_eq!(code.index, 0);
    assert_eq!(code.start, 0x401000);
    assert_eq!(code.aligned_start, 0x401000);
    assert_eq!(code.padding, 0);
    assert_eq!(code.total_len, 4);
    let code_image = segment_image(&file.program_headers[0]);
    assert_eq!(code_image, vec![0x90, 0x90, 0x90, 0xc3]);
    // its protection state allows no writes
    assert!(code.flags.read && code.flags.execute && !code.flags.write);

    // the RW data segment carries its bytes plus implied zero fill
    let data = &plan[1];
    assert_eq!(data.index, 1);
    assert!(data.flags.read && data.flags.write && !data.flags.execute);
    let data_image = segment_image(&file.program_headers[1]);
    assert_eq!(data_image.len(), 0x10);
    assert_eq!(&data_image[..2], &[0x2a, 0x07]);
    for k in 2..0x10 {
        assert_eq!(data_image[k], 0);
    }

    // the entry point lies in the first segment and relocates with the base
    assert_eq!(file.find_entry_segment(), Some(0));
    assert_eq!(entry_address(&file, base), Ok(0x401002));
}

#[test]
fn non_loadable_segments_get_no_reservation() {
    let mut buf = two_segment_elf();
    buf[64..68].copy_from_slice(&4u32.to_le_bytes()); // first entry: Note
    let file = File::parse(&buf).unwrap();
    let plan = plan_load(&file, 0x400000).unwrap();
    assert_eq!(plan.len(), 1);
    assert_eq!(plan[0].index, 1);
}

#[test]
fn empty_memory_range_gets_no_reservation() {
    let mut buf = two_segment_elf();
    buf[120 + 32..120 + 40].copy_from_slice(&0u64.to_le_bytes()); // filesz
    buf[120 + 40..120 + 48].copy_from_slice(&0u64.to_le_bytes()); // memsz
    let file = File::parse(&buf).unwrap();
    let plan = plan_load(&file, 0x400000).unwrap();
    assert_eq!(plan.len(), 1);
    assert_eq!(plan[0].index, 0);
}

#[test]
fn overflowing_relocation_is_rejected() {
    let buf = two_segment_elf();
    let file = File::parse(&buf).unwrap();
    assert_eq!(plan_load(&file, u64::MAX - 0x1500), Err(LoadError::AddressOverflow));
}

#[test]
fn entry_point_outside_every_segment_is_fatal() {
    let mut buf = two_segment_elf();
    buf[24..32].copy_from_slice(&0x9999u64.to_le_bytes()); // entry point
    let file = File::parse(&buf).unwrap();
    assert_eq!(file.find_entry_segment(), None);
    assert_eq!(entry_address(&file, 0x400000), Err(LoadError::NoEntrySegment));
}
