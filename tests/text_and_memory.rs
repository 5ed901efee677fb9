use kernel::framebuffer::diagonal_pixel_offset;
use kernel::logger::{is_enabled, log_line, panic_line, strip_src_prefix, LogLevel};
use kernel::memory::bootstrap::{BootstrapAlloc, BootstrapAllocError};
use kernel::memory::addr::{align_up, is_power_of_two, AddrError, PhysAddr};
use kernel::memory::frame::{Frame, FrameSize, FrameSize4K};
use kernel::memory::frame_allocator::{
    BumpFrameAllocator, FrameAllocator, FrameAllocatorError, MemoryRegion,
};
use kernel::text::{decimal_string, hex_string};
use kernel::uart::{ready_to_send, LineStatus, PortWrite, SerialPort, COM_1_ADDR};

#[test]
fn hex_and_decimal_text() {
    assert_eq!(hex_string(0), "0x0");
    assert_eq!(hex_string(0xdead_beef), "0xdeadbeef");
    assert_eq!(hex_string(u64::MAX), "0xffffffffffffffff");
    assert_eq!(decimal_string(0), "0");
    assert_eq!(decimal_string(3_735_928_559), "3735928559");
    assert_eq!(decimal_string(u64::MAX), "18446744073709551615");
}

#[test]
fn powers_of_two() {
    assert!(is_power_of_two(1));
    assert!(is_power_of_two(4096));
    assert!(is_power_of_two(1 << 63));
    assert!(!is_power_of_two(0));
    assert!(!is_power_of_two(3));
    assert!(!is_power_of_two(4097));
}

#[test]
fn align_down_to_power_of_two() {
    assert_eq!(PhysAddr::new(0x1234).align_down(0x1000).unwrap().as_u64(), 0x1000);
    assert_eq!(PhysAddr::new(0x2000).align_down(0x1000).unwrap().as_u64(), 0x2000);
    assert_eq!(PhysAddr::new(u64::MAX).align_down(0x1000).unwrap().as_u64(), 0xffff_ffff_ffff_f000);
    assert_eq!(PhysAddr::new(0x1234).align_down(3), Err(AddrError::InvalidAlignment));
    assert_eq!(PhysAddr::new(0x1234).align_down(0), Err(AddrError::InvalidAlignment));
}

#[test]
fn align_up_to_power_of_two() {
    assert_eq!(align_up(0x1001, 0x1000), 0x2000);
    assert_eq!(align_up(0x1000, 0x1000), 0x1000);
    assert_eq!(align_up(0, 8), 0);
    assert_eq!(align_up(9, 8), 16);
}

#[test]
fn frames_contain_their_address() {
    let f: Frame<FrameSize4K> = Frame::containing_addr(PhysAddr::new(0x12_3456));
    assert_eq!(f.start_addr().as_u64(), 0x12_3000);
    let g = Frame::<FrameSize4K>::containing(PhysAddr::new(0x4000)).unwrap();
    assert_eq!(g.start_addr().as_u64(), 0x4000);
    assert_eq!(FrameSize4K::size(), 4096);
    assert_eq!(FrameSize4K::size_str(), "4 KiB");
}

fn region(base: u64, length: u64, usable: bool) -> MemoryRegion {
    MemoryRegion { base, length, usable }
}

#[test]
fn bump_allocator_walks_usable_regions() {
    let regions = vec![
        region(0, 0x1000, false),
        region(0x1000, 0x2000, true),
        region(0x3000, 0x1000, false),
        region(0x5000, 0x800, true),
        region(0x8000, 0x1000, true),
    ];
    let mut a: BumpFrameAllocator<FrameSize4K> = BumpFrameAllocator::new(regions);
    assert_eq!(a.allocate_frame().unwrap().start_addr().as_u64(), 0x1000);
    assert_eq!(a.allocate_frame().unwrap().start_addr().as_u64(), 0x2000);
    assert_eq!(a.allocate().unwrap().start_addr().as_u64(), 0x8000);
    assert!(matches!(a.allocate_frame(), Err(FrameAllocatorError::NoFreeFrames)));
    assert!(matches!(a.allocate_frame(), Err(FrameAllocatorError::NoFreeFrames)));
}

#[test]
fn log_lines() {
    assert_eq!(
        log_line(LogLevel::Debug, Some("src/arch/x86_64/gdt.rs"), Some(42), "GDT... OK!"),
        Some("\x1b[34m[DEBUG]\x1b[0m arch/x86_64/gdt.rs:42 - GDT... OK!\n".to_string())
    );
    assert_eq!(
        log_line(LogLevel::Error, None, None, "boom"),
        Some("\x1b[31m[ERROR]\x1b[0m unknown:0 - boom\n".to_string())
    );
    assert_eq!(log_line(LogLevel::Trace, Some("src/main.rs"), Some(1), "x"), None);
    assert!(is_enabled(LogLevel::Info));
    assert!(!is_enabled(LogLevel::Trace));
    assert_eq!(strip_src_prefix("lib/src/x.rs"), "lib/src/x.rs");
    assert_eq!(strip_src_prefix("src/"), "");
    assert_eq!(panic_line("src/main.rs:3:5", "oops"), "KERNEL PANIC: src/main.rs:3:5 - oops");
}

#[test]
fn uart_init_sequence() {
    let port = SerialPort::new(COM_1_ADDR);
    let writes = port.init_writes();
    let expected: Vec<PortWrite> = [
        (0x3f9, 0x00),
        (0x3fb, 0x80),
        (0x3f8, 0x03),
        (0x3f9, 0x00),
        (0x3fb, 0x03),
        (0x3fa, 0xc7),
        (0x3fc, 0x0b),
        (0x3fc, 0x1e),
        (0x3f8, 0xae),
    ]
    .iter()
    .map(|&(port, value)| PortWrite { port, value })
    .collect();
    assert_eq!(writes, expected);
    assert_eq!(port.self_test_port(), 0x3f8);
    assert_eq!(port.finish_init(0xae), Some(PortWrite { port: 0x3fc, value: 0x0f }));
    assert_eq!(port.finish_init(0xff), None);
    assert_eq!(port.register(5), 0x3fd);
}

#[test]
fn uart_line_status() {
    assert!(ready_to_send(0x20));
    assert!(ready_to_send(0x61));
    assert!(!ready_to_send(0x1f));
    assert!(LineStatus::from_bits_truncate(0x21).contains(LineStatus::data_ready()));
    assert!(!LineStatus::from_bits_truncate(0x20).contains(LineStatus::data_ready()));
}

#[test]
fn framebuffer_diagonal() {
    assert_eq!(diagonal_pixel_offset(0, 4096), Some(0));
    assert_eq!(diagonal_pixel_offset(99, 3200), Some(99 * 3200 + 99 * 4));
    assert_eq!(diagonal_pixel_offset(u64::MAX, 2), None);
}

#[test]
fn bootstrap_allocator_carves_free_regions() {
    let regions = vec![
        region(0, 0x1000, false),
        region(0x1000, 0x1000, true),
        region(0x10000, 0x5000, true),
    ];
    let mut a: BootstrapAlloc<FrameSize4K> = BootstrapAlloc::new(regions);
    assert_eq!(a.allocate(100), Some(0x1000));
    assert_eq!(a.allocate(4097), Some(0x10000));
    assert_eq!(a.allocate(0x4000), None);
    assert_eq!(a.allocate_layout(10, 16), Ok((0x12000, 16)));
    assert_eq!(a.allocate_layout(0x2000, 0x1000), Ok((0x13000, 0x2000)));
    assert_eq!(a.allocate_layout(1, 8), Err(BootstrapAllocError::OutOfMemory));
    assert_eq!(a.allocate(0), Some(0x1000 + 0x1000));
}
