use kernel::exceptions::{is_registered, register_exceptions, EXCEPTION_VECTORS};
use kernel::gdt::{encode_gdt, gdt_descriptor, kernel_gdt, GdtEntry, GdtEntryFlags, ACCESS_PRESENT};
use kernel::idt::{idt_descriptor, Idt, IdtEntry, IdtEntryAttributes};
use kernel::selector::{
    kernel_code_selector, kernel_data_selector, PrivilegeLevel, SegmentSelector,
};

#[test]
fn selector_round_trip_small_indices() {
    for index in 0u16..3 {
        for privilege in [PrivilegeLevel::Kernel, PrivilegeLevel::User] {
            let s = SegmentSelector::new(index, privilege);
            assert_eq!(s.index(), index);
            assert_eq!(s.privilege(), Some(privilege));
        }
    }
}

#[test]
fn selector_bits_formula() {
    assert_eq!(SegmentSelector::new(2, PrivilegeLevel::User).bits(), 0x13);
    assert_eq!(SegmentSelector::new(8191, PrivilegeLevel::Kernel).bits(), 0xfff8);
    assert_eq!(kernel_code_selector().bits(), 0x08);
    assert_eq!(kernel_data_selector().bits(), 0x10);
    assert_eq!(SegmentSelector::from_bits(0x0a).privilege(), None);
}

#[test]
fn gdt_entries_encode_as_the_processor_reads_them() {
    let table = kernel_gdt();
    let words = encode_gdt(&table);
    assert_eq!(words, [0, 0x0020_9a00_0000_0000, 0x0020_9200_0000_0000]);
}

#[test]
fn gdt_null_entry_is_zero_and_others_present() {
    let table = kernel_gdt();
    let null = table[0];
    assert_eq!(
        null,
        GdtEntry {
            limit_low: 0,
            base_low: 0,
            base_middle: 0,
            access: 0,
            limit_high_flags: 0,
            base_high: 0,
        }
    );
    for entry in &table[1..] {
        let access = ((entry.encode() >> 40) & 0xff) as u8;
        assert_eq!(access & ACCESS_PRESENT, ACCESS_PRESENT);
    }
}

#[test]
fn gdt_entry_keeps_only_the_flag_nibble() {
    let e = GdtEntry::new(0x92, GdtEntryFlags(0x2f));
    assert_eq!(e.limit_high_flags, 0x20);
    assert_eq!(GdtEntryFlags::protected_mode().bits(), 0x40);
    assert_eq!(GdtEntryFlags::long_mode().bits(), 0x20);
    assert_eq!(GdtEntryFlags::empty().bits(), 0);
}

#[test]
fn gdt_descriptor_size_and_offset() {
    let d = gdt_descriptor(0xffff_8000_0000_1000);
    assert_eq!(d.size, 23);
    assert_eq!(d.offset, 0xffff_8000_0000_1000);
}

#[test]
fn idt_descriptor_size_and_offset() {
    let d = idt_descriptor(0x20_0000);
    assert_eq!(d.size, 4095);
    assert_eq!(d.offset, 0x20_0000);
}

#[test]
fn idt_attributes() {
    assert_eq!(IdtEntryAttributes::kernel().0, 0x8e);
    assert_eq!(IdtEntryAttributes::new(PrivilegeLevel::User).0, 0xee);
}

#[test]
fn empty_entry_encoding() {
    let e = IdtEntry::empty();
    assert_eq!(e.handler_offset(), 0);
    assert!(e.is_present());
    assert_eq!(e.encode(), [0x0000_8e00_0008_0000, 0]);
}

#[test]
fn idt_entry_splits_and_reassembles_offset() {
    let offset: usize = 0xffff_8000_1234_5678;
    let e = IdtEntry::new(offset, kernel_code_selector(), IdtEntryAttributes::kernel());
    assert_eq!(e.offset_low, 0x5678);
    assert_eq!(e.offset_middle, 0x1234);
    assert_eq!(e.offset_high, 0xffff_8000);
    assert_eq!(e.handler_offset(), offset as u64);
    assert_eq!(e.encode(), [0x1234_8e00_0008_5678, 0xffff_8000]);
}

fn handlers() -> [usize; EXCEPTION_VECTORS] {
    let mut h = [0usize; EXCEPTION_VECTORS];
    for (v, slot) in h.iter_mut().enumerate() {
        *slot = 0xffff_ffff_8010_0000 + v * 0x40;
    }
    h
}

#[test]
fn unregistered_vectors_stay_empty_but_present() {
    let mut idt = Idt::new();
    register_exceptions(&mut idt, &handlers());
    let mut unregistered = 0;
    for v in 0..=255u8 {
        if !is_registered(v) {
            unregistered += 1;
            let e = idt.entry(v);
            assert_eq!(e.handler_offset(), 0);
            assert!(e.is_present());
        }
    }
    assert_eq!(unregistered, 256 - 23);
}

#[test]
fn registered_vectors_read_back_their_handler() {
    let h = handlers();
    let mut idt = Idt::new();
    register_exceptions(&mut idt, &h);
    let registered: Vec<u8> = (0..32u8).filter(|v| is_registered(*v)).collect();
    assert_eq!(
        registered,
        vec![0, 1, 2, 3, 4, 5, 6, 7, 8, 10, 11, 12, 13, 14, 16, 17, 18, 19, 20, 21, 28, 29, 30]
    );
    for v in registered {
        let e = idt.entry(v);
        let low = e.offset_low as u64;
        let mid = e.offset_middle as u64;
        let high = e.offset_high as u64;
        assert_eq!(low | mid << 16 | high << 32, h[v as usize] as u64);
        assert_eq!(e.selector.bits(), 0x08);
        assert_eq!(e.attributes.0, 0x8e);
    }
}

#[test]
fn set_handler_overwrites_one_entry() {
    let mut idt = Idt::new();
    idt.set_handler(200, 0x1234_5678_9abc);
    assert_eq!(idt.entry(200).handler_offset(), 0x1234_5678_9abc);
    assert_eq!(idt.entry(199), IdtEntry::empty());
    assert_eq!(idt.entry(201), IdtEntry::empty());
}

#[test]
fn register_exceptions_twice_is_once() {
    let h = handlers();
    let mut once = Idt::new();
    register_exceptions(&mut once, &h);
    let mut twice = Idt::new();
    register_exceptions(&mut twice, &h);
    register_exceptions(&mut twice, &h);
    assert_eq!(once.entries, twice.entries);
}
