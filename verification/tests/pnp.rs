use noelv::ahb_pnp::regs::fields::{AhbBar, BarType, Id};
use noelv::ahb_pnp::{self, Reader};
use noelv::apb_pnp;
use noelv::apb_pnp::regs::fields::ApbBar;

#[test]
fn id_fields() {
    let id = Id::new_with_raw_value(0x0100_6_0_00 | (0x2 << 10) | (0x3 << 5) | 0x11);
    assert_eq!(id.vendor_raw(), 0x01);
    assert_eq!(id.device_raw(), 0x006);
    assert_eq!(id.irq_a(), 0x2);
    assert_eq!(id.version(), 0x3);
    assert_eq!(id.irq_b(), 0x11);
}

#[test]
fn bar_type_decoding() {
    assert_eq!(BarType::new_with_raw_value(1), Ok(BarType::ApbIo));
    assert_eq!(BarType::new_with_raw_value(2), Ok(BarType::AhbMemory));
    assert_eq!(BarType::new_with_raw_value(3), Ok(BarType::AhbIo));
    assert_eq!(BarType::new_with_raw_value(0), Err(0));
    assert_eq!(BarType::new_with_raw_value(15), Err(15));
    for t in [BarType::ApbIo, BarType::AhbMemory, BarType::AhbIo] {
        assert_eq!(BarType::new_with_raw_value(t.raw_value()), Ok(t));
    }
}

#[test]
fn ahb_bar_fields_and_address() {
    let bar = AhbBar::new_with_raw_value(0xff9f_ff02 | (1 << 17));
    assert_eq!(bar.addr_upper_bits(), 0xff9);
    assert_eq!(bar.address(), 0xff90_0000);
    assert!(bar.prefetchable());
    assert!(bar.cacheable());
    assert_eq!(bar.mask(), 0xff0);
    assert_eq!(bar.bar_type(), Ok(BarType::AhbMemory));
    assert_eq!(AhbBar::new_with_raw_value(0).bar_type(), Err(0));
}

#[test]
fn ahb_address_range() {
    assert_eq!(AhbBar::new_with_raw_value(0xfff << 4).address_range(), 1 << 20);
    assert_eq!(AhbBar::new_with_raw_value(0xffe << 4).address_range(), 1 << 21);
    assert_eq!(AhbBar::new_with_raw_value(0xff0 << 4).address_range(), 1 << 24);
    assert_eq!(AhbBar::new_with_raw_value(0).address_range(), 1 << 32);
}

#[test]
fn apb_bar_address_and_range() {
    let bar = ApbBar::new_with_raw_value((0x009 << 20) | (0xfff << 4) | 1);
    assert_eq!(bar.address(), 0x900);
    assert_eq!(bar.total_address(0xff90_0000), 0xff90_0900);
    assert_eq!(bar.address_range(), 0x100);
    assert_eq!(bar.bar_type(), Ok(BarType::ApbIo));
    assert_eq!(ApbBar::new_with_raw_value(0xff0 << 4).address_range(), 1 << 12);
    assert_eq!(ApbBar::new_with_raw_value(0).address_range(), 1 << 20);
}

fn ahb_record(id: u32) -> ahb_pnp::MmioRegisters {
    ahb_pnp::Registers {
        id: Id::new_with_raw_value(id),
        user_defined: [0; 3],
        bar: [AhbBar::default(); 4],
    }
}

#[test]
fn ahb_record_emptiness() {
    assert!(ahb_record(0).is_empty());
    assert!(!ahb_record(1).is_empty());
    let mut r = ahb_record(0);
    r.user_defined[2] = 5;
    assert!(!r.is_empty());
    let mut r = ahb_record(0);
    r.bar[3] = AhbBar::new_with_raw_value(1);
    assert!(!r.is_empty());
}

#[test]
fn apb_record_emptiness() {
    let r = apb_pnp::Registers { id: Id::default(), bar: ApbBar::default() };
    assert!(r.is_empty());
    let r = apb_pnp::Registers { id: Id::default(), bar: ApbBar::new_with_raw_value(0x10) };
    assert!(!r.is_empty());
}

#[test]
fn ahb_reader_visits_every_slot_once() {
    let mut reader = Reader::new_with_custom_count(0x1000, 3);
    assert_eq!(reader.next_record_addr(), Some(0x1000));
    assert_eq!(reader.next_record_addr(), Some(0x1020));
    assert_eq!(reader.next_record_addr(), Some(0x1040));
    assert_eq!(reader.next_record_addr(), None);
    assert_eq!(reader.next_record_addr(), None);
    let mut masters = Reader::new_for_masters();
    let mut count = 0;
    let mut last = 0;
    while let Some(addr) = masters.next_record_addr() {
        last = addr;
        count += 1;
    }
    assert_eq!(count, ahb_pnp::RECORDS_PER_BLOCK);
    assert_eq!(last, 0xFFFF_F000 + 63 * 32);
    let mut slaves = Reader::new_for_slaves();
    assert_eq!(slaves.next_record_addr(), Some(ahb_pnp::DEFAULT_SLAVE_BASE_ADDR));
}

#[test]
fn ahb_reader_skips_empty_records() {
    let mut reader = Reader::new(0x8000);
    let read = |addr: usize| if addr == 0x8040 || addr == 0x8100 { ahb_record(addr as u32) } else { ahb_record(0) };
    let (addr, rec) = reader.next(read).unwrap();
    assert_eq!(addr, 0x8040);
    assert_eq!(rec.id.raw_value(), 0x8040);
    let (addr, _) = reader.next(read).unwrap();
    assert_eq!(addr, 0x8100);
    assert!(reader.next(read).is_none());
    assert_eq!(reader.next_record_addr(), None);
}

#[test]
fn ahb_reader_walk_yields_populated_records_once() {
    let populated = [0x1000usize, 0x1060, 0x10e0];
    let read = |addr: usize| if populated.contains(&addr) { ahb_record(1) } else { ahb_record(0) };
    let mut reader = Reader::new_with_custom_count(0x1000, 8);
    let mut seen = Vec::new();
    while let Some((addr, _)) = reader.next(read) {
        seen.push(addr);
    }
    assert_eq!(seen, populated.to_vec());
    assert!(reader.next(read).is_none());
    let mut empty = Reader::new_with_custom_count(0x1000, 8);
    assert!(empty.next(|_| ahb_record(0)).is_none());
}

#[test]
fn apb_reader_offsets() {
    let mut reader = apb_pnp::Reader::new(0x8000_0000);
    assert_eq!(reader.next_record_addr(), Some(0x800F_F000));
    assert_eq!(reader.next_record_addr(), Some(0x800F_F008));
    let mut n = 2;
    while reader.next_record_addr().is_some() {
        n += 1;
    }
    assert_eq!(n, apb_pnp::RECORDS_PER_BLOCK);
    let mut reader = apb_pnp::Reader::new_with_custom_count(0x8000_0000, 4);
    let read = |addr: usize| apb_pnp::Registers {
        id: Id::new_with_raw_value(if addr == 0x800F_F010 { 7 } else { 0 }),
        bar: ApbBar::default(),
    };
    let (addr, rec) = reader.next(read).unwrap();
    assert_eq!(addr, 0x800F_F010);
    assert_eq!(rec.id.raw_value(), 7);
    assert!(reader.next(read).is_none());
}
