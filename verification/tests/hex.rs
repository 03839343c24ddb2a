use delf::addr::Addr;
use delf::addr::AddrRange;
use delf::hex::HexDump;

#[test]
fn hex_dump_renders_byte_pairs() {
    let bytes = [0x00u8, 0x0f, 0xff, 0x7f];
    let dump = HexDump(&bytes).render();
    assert_eq!(String::from_utf8(dump).unwrap(), "00 0f ff 7f ");
}

#[test]
fn hex_dump_stops_after_thirty_two_bytes() {
    let bytes = [0xabu8; 40];
    let dump = HexDump(&bytes).render();
    assert_eq!(dump.len(), 3 * 32);
    assert_eq!(String::from_utf8(dump).unwrap(), "ab ".repeat(32));
}

#[test]
fn addr_renders_as_eight_hex_digits() {
    assert_eq!(String::from_utf8(Addr(0x1234).hex()).unwrap(), "00001234");
    assert_eq!(String::from_utf8(Addr(0).hex()).unwrap(), "00000000");
    assert_eq!(String::from_utf8(Addr(0xdeadbeef).hex()).unwrap(), "deadbeef");
}

#[test]
fn addr_arithmetic_and_ranges() {
    let a = Addr(0x1000);
    let b = Addr(0x234);
    assert_eq!(a.plus(b), Addr(0x1234));
    assert_eq!(a.minus(b), Addr(0xdcc));
    assert_eq!(a.to_usize(), 0x1000usize);
    assert_eq!(Addr::from(7u64), Addr(7));
    assert!(b < a);

    let r = AddrRange { start: Addr(0x1000), end: Addr(0x1008) };
    assert!(r.contains(Addr(0x1000)));
    assert!(r.contains(Addr(0x1007)));
    assert!(!r.contains(Addr(0x1008)));
    assert!(!r.is_empty());
    assert!((AddrRange { start: a, end: a }).is_empty());
}
