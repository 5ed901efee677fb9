//! The global descriptor table: a null descriptor, kernel code and kernel data, in the
//! processor's 8-byte descriptor format.
use vstd::prelude::*;

verus! {

/// Number of descriptors in the table.
pub const GDT_ENTRIES: usize = 3;

/// Access byte: the segment is readable (code) or writable (data).
pub const ACCESS_RW: u8 = 0x02;

/// Access byte: the segment holds code.
pub const ACCESS_EXECUTABLE: u8 = 0x08;

/// Access byte: a code or data segment rather than a system segment.
pub const ACCESS_DESCRIPTOR_TYPE: u8 = 0x10;

/// Access byte: descriptor privilege level 0, in bits 5 and 6.
pub const ACCESS_KERNEL: u8 = 0x00;

/// Access byte: the descriptor is present.
pub const ACCESS_PRESENT: u8 = 0x80;

/// Access byte of the kernel code descriptor.
pub const KERNEL_CODE_ACCESS: u8 = ACCESS_PRESENT | ACCESS_KERNEL | ACCESS_DESCRIPTOR_TYPE
    | ACCESS_EXECUTABLE | ACCESS_RW;

/// Access byte of the kernel data descriptor.
pub const KERNEL_DATA_ACCESS: u8 = ACCESS_PRESENT | ACCESS_KERNEL | ACCESS_DESCRIPTOR_TYPE
    | ACCESS_RW;

/// The flags nibble of a descriptor, kept in the upper four bits of a byte.
#[derive(Clone, Copy, Debug, PartialEq, Eq, Structural)]
pub struct GdtEntryFlags(pub u8);

impl GdtEntryFlags {
    /// 32-bit protected-mode segment.
    pub open spec fn spec_protected_mode() -> GdtEntryFlags {
        GdtEntryFlags(0x40)
    }

    /// 64-bit code segment.
    pub open spec fn spec_long_mode() -> GdtEntryFlags {
        GdtEntryFlags(0x20)
    }

    pub fn empty() -> (r: GdtEntryFlags)
        ensures
            r == GdtEntryFlags(0),
    {
        GdtEntryFlags(0)
    }

    pub fn protected_mode() -> (r: GdtEntryFlags)
        ensures
            r == Self::spec_protected_mode(),
    {
        GdtEntryFlags(0x40)
    }

    pub fn long_mode() -> (r: GdtEntryFlags)
        ensures
            r == Self::spec_long_mode(),
    {
        GdtEntryFlags(0x20)
    }

    pub fn bits(self) -> (r: u8)
        ensures
            r == self.0,
    {
        self.0
    }
}

/// One segment descriptor. Base and limit stay zero: long mode uses flat addressing and ignores
/// the limits of code and data segments.
#[derive(Clone, Copy, Debug, PartialEq, Eq, Structural)]
pub struct GdtEntry {
    pub limit_low: u16,
    pub base_low: u16,
    pub base_middle: u8,
    pub access: u8,
    pub limit_high_flags: u8,
    pub base_high: u8,
}

impl GdtEntry {
    pub open spec fn spec_new(access: u8, flags: GdtEntryFlags) -> GdtEntry {
        GdtEntry {
            limit_low: 0,
            base_low: 0,
            base_middle: 0,
            access,
            limit_high_flags: flags.0 & 0xF0u8,
            base_high: 0,
        }
    }

    /// A flat descriptor with the given access byte and flags.
    pub fn new(access: u8, flags: GdtEntryFlags) -> (r: GdtEntry)
        ensures
            r == Self::spec_new(access, flags),
    {
        GdtEntry {
            limit_low: 0,
            base_low: 0,
            base_middle: 0,
            access,
            limit_high_flags: flags.0 & 0xF0u8,
            base_high: 0,
        }
    }

    /// The descriptor as the processor reads it, as a little-endian 64-bit word.
    pub open spec fn spec_encode(self) -> u64 {
        (self.limit_low as u64) | ((self.base_low as u64) << 16u64) | ((self.base_middle as u64)
            << 32u64) | ((self.access as u64) << 40u64) | ((self.limit_high_flags as u64) << 48u64)
            | ((self.base_high as u64) << 56u64)
    }

    /// Whether the descriptor's present bit is set.
    pub open spec fn is_present(self) -> bool {
        self.access & ACCESS_PRESENT == ACCESS_PRESENT
    }

    /// The descriptor as the processor reads it, as a little-endian 64-bit word.
    pub fn encode(&self) -> (r: u64)
        ensures
            r == self.spec_encode(),
    {
        (self.limit_low as u64) | ((self.base_low as u64) << 16u64) | ((self.base_middle as u64)
            << 32u64) | ((self.access as u64) << 40u64) | ((self.limit_high_flags as u64) << 48u64)
            | ((self.base_high as u64) << 56u64)
    }

    /// The access byte as it stands in the encoded word.
    pub open spec fn encoded_access(word: u64) -> u8 {
        ((word >> 40u64) & 0xFFu64) as u8
    }
}

/// The table the kernel loads: null, kernel code, kernel data.
pub open spec fn spec_kernel_gdt() -> [GdtEntry; GDT_ENTRIES] {
    [
        GdtEntry::spec_new(0, GdtEntryFlags(0)),
        GdtEntry::spec_new(KERNEL_CODE_ACCESS, GdtEntryFlags::spec_long_mode()),
        GdtEntry::spec_new(KERNEL_DATA_ACCESS, GdtEntryFlags::spec_long_mode()),
    ]
}

/// The table the kernel loads: the null descriptor, then a present ring-0 64-bit code segment,
/// then a present ring-0 writable data segment.
pub fn kernel_gdt() -> (r: [GdtEntry; GDT_ENTRIES])
    ensures
        r@ == spec_kernel_gdt()@,
{
    let r = [
        GdtEntry::new(0, GdtEntryFlags::empty()),
        GdtEntry::new(KERNEL_CODE_ACCESS, GdtEntryFlags::long_mode()),
        GdtEntry::new(KERNEL_DATA_ACCESS, GdtEntryFlags::long_mode()),
    ];
    assert(r@ =~= spec_kernel_gdt()@);
    r
}

/// The table's words, in order, as the processor reads them.
pub fn encode_gdt(table: &[GdtEntry; GDT_ENTRIES]) -> (r: [u64; GDT_ENTRIES])
    ensures
        forall|i: int| 0 <= i < GDT_ENTRIES ==> r@[i] == (#[trigger] table@[i]).spec_encode(),
{
    let r = [table[0].encode(), table[1].encode(), table[2].encode()];
    assert(forall|i: int| 0 <= i < GDT_ENTRIES ==> r@[i] == (#[trigger] table@[i]).spec_encode());
    r
}

/// The operand of `lgdt`: the table's size in bytes minus one, and its linear address.
#[derive(Clone, Copy, Debug, PartialEq, Eq, Structural)]
pub struct GdtDescriptor {
    pub size: u16,
    pub offset: u64,
}

impl GdtDescriptor {
    pub fn new(size: u16, offset: u64) -> (r: GdtDescriptor)
        ensures
            r.size == size,
            r.offset == offset,
    {
        GdtDescriptor { size, offset }
    }
}

/// The `lgdt` operand for the kernel table placed at `address`.
pub fn gdt_descriptor(address: u64) -> (r: GdtDescriptor)
    ensures
        r.size == 8 * GDT_ENTRIES - 1,
        r.offset == address,
{
    GdtDescriptor::new((8 * GDT_ENTRIES - 1) as u16, address)
}

/// Every descriptor of the kernel table but the null one is present, and the null descriptor
/// encodes to zero in every field.
pub proof fn lemma_kernel_gdt_layout()
    ensures
        spec_kernel_gdt()[0].spec_encode() == 0,
        spec_kernel_gdt()[0] == (GdtEntry {
            limit_low: 0,
            base_low: 0,
            base_middle: 0,
            access: 0,
            limit_high_flags: 0,
            base_high: 0,
        }),
        forall|i: int|
            1 <= i < GDT_ENTRIES ==> #[trigger] GdtEntry::encoded_access(
                spec_kernel_gdt()[i].spec_encode(),
            ) & ACCESS_PRESENT == ACCESS_PRESENT,
{
    assert(0u8 & 0xF0u8 == 0u8) by (bit_vector);
    assert((0x80u8 | 0x00u8 | 0x10u8 | 0x08u8 | 0x02u8) == 0x9Au8) by (bit_vector);
    assert((0x80u8 | 0x00u8 | 0x10u8 | 0x02u8) == 0x92u8) by (bit_vector);
    assert(0x20u8 & 0xF0u8 == 0x20u8) by (bit_vector);
    let z = spec_kernel_gdt()[0];
    assert(z.spec_encode() == 0) by {
        assert(((0u16 as u64) | ((0u16 as u64) << 16u64) | ((0u8 as u64) << 32u64) | ((0u8 as u64)
            << 40u64) | ((0u8 as u64) << 48u64) | ((0u8 as u64) << 56u64)) == 0u64) by (bit_vector);
    }
    assert forall|i: int| 1 <= i < GDT_ENTRIES implies #[trigger] GdtEntry::encoded_access(
        spec_kernel_gdt()[i].spec_encode(),
    ) & ACCESS_PRESENT == ACCESS_PRESENT by {
        let e = spec_kernel_gdt()[i];
        let a = e.access;
        let f = e.limit_high_flags;
        assert(a == 0x9Au8 || a == 0x92u8);
        assert(a & 0x80u8 == 0x80u8) by (bit_vector)
            requires
                a == 0x9Au8 || a == 0x92u8,
        ;
        assert(((((0u16 as u64) | ((0u16 as u64) << 16u64) | ((0u8 as u64) << 32u64) | ((a as u64)
            << 40u64) | ((f as u64) << 48u64) | ((0u8 as u64) << 56u64)) >> 40u64) & 0xFFu64) as u8
            == a) by (bit_vector);
    }
}

} // verus!
