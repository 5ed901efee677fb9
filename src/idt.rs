//! The interrupt descriptor table: 256 interrupt gates in the processor's 16-byte format.
use crate::selector::{kernel_code_selector, PrivilegeLevel, SegmentSelector};
use vstd::prelude::*;

verus! {

/// Number of vectors, hence of entries.
pub const IDT_ENTRIES: usize = 256;

/// Gate type of a 64-bit interrupt gate, in the low nibble of the attributes byte.
pub const INTERRUPT_GATE: u8 = 0x0e;

/// Attributes byte: the entry is present.
pub const GATE_PRESENT: u8 = 0x80;

/// The attributes byte of a gate: present bit, descriptor privilege level in bits 5 and 6, and
/// gate type.
#[derive(Clone, Copy, Debug, PartialEq, Eq, Structural)]
pub struct IdtEntryAttributes(pub u8);

impl IdtEntryAttributes {
    pub open spec fn spec_new(privilege: PrivilegeLevel) -> IdtEntryAttributes {
        IdtEntryAttributes((GATE_PRESENT | ((privilege.spec_ring() as u8) << 5u8) | INTERRUPT_GATE) as u8)
    }

    /// A present interrupt gate that code at `privilege` may invoke.
    pub fn new(privilege: PrivilegeLevel) -> (r: IdtEntryAttributes)
        ensures
            r == Self::spec_new(privilege),
    {
        let ring = privilege.ring() as u8;
        IdtEntryAttributes(GATE_PRESENT | (ring << 5u8) | INTERRUPT_GATE)
    }

    /// A present interrupt gate reserved to the kernel: `0x8e`.
    pub fn kernel() -> (r: IdtEntryAttributes)
        ensures
            r == Self::spec_new(PrivilegeLevel::Kernel),
            r.0 == 0x8e,
    {
        assert((0x80u8 | (0u8 << 5u8) | 0x0eu8) == 0x8eu8) by (bit_vector);
        Self::new(PrivilegeLevel::Kernel)
    }
}

/// One gate. The 64-bit handler address is split in three fields, as the architecture mandates.
#[derive(Clone, Copy, Debug, PartialEq, Eq, Structural)]
pub struct IdtEntry {
    pub offset_low: u16,
    pub selector: SegmentSelector,
    pub ist: u8,
    pub attributes: IdtEntryAttributes,
    pub offset_middle: u16,
    pub offset_high: u32,
    pub reserved: u32,
}

impl IdtEntry {
    pub open spec fn spec_new(
        offset: usize,
        selector: SegmentSelector,
        attributes: IdtEntryAttributes,
    ) -> IdtEntry {
        let o = offset as u64;
        IdtEntry {
            offset_low: (o & 0xFFFFu64) as u16,
            selector,
            ist: 0,
            attributes,
            offset_middle: ((o >> 16u64) & 0xFFFFu64) as u16,
            offset_high: (o >> 32u64) as u32,
            reserved: 0,
        }
    }

    /// The entry every vector holds until a handler is set: handler address 0 behind a present
    /// kernel gate, so a trap on it faults on the null address instead of running stray memory.
    pub open spec fn spec_empty() -> IdtEntry {
        Self::spec_new(
            0,
            SegmentSelector::spec_new(1, PrivilegeLevel::Kernel),
            IdtEntryAttributes::spec_new(PrivilegeLevel::Kernel),
        )
    }

    /// The handler address the three offset fields put together.
    pub open spec fn spec_handler_offset(self) -> u64 {
        (self.offset_low as u64) | ((self.offset_middle as u64) << 16u64) | ((self.offset_high as u64)
            << 32u64)
    }

    pub open spec fn spec_is_present(self) -> bool {
        self.attributes.0 & GATE_PRESENT == GATE_PRESENT
    }

    /// A gate that enters the handler at address `offset` with code segment `selector`.
    pub fn new(offset: usize, selector: SegmentSelector, attributes: IdtEntryAttributes) -> (r:
        IdtEntry)
        ensures
            r == Self::spec_new(offset, selector, attributes),
            r.spec_handler_offset() == offset as u64,
    {
        let o = offset as u64;
        assert((o & 0xFFFFu64) < 0x10000u64) by (bit_vector);
        assert(((o >> 16u64) & 0xFFFFu64) < 0x10000u64) by (bit_vector);
        assert((o >> 32u64) < 0x1_0000_0000u64) by (bit_vector);
        proof {
            lemma_handler_offset_round_trip(offset, selector, attributes);
        }
        IdtEntry {
            offset_low: (o & 0xFFFFu64) as u16,
            selector,
            ist: 0,
            attributes,
            offset_middle: ((o >> 16u64) & 0xFFFFu64) as u16,
            offset_high: (o >> 32u64) as u32,
            reserved: 0,
        }
    }

    /// The entry every vector holds until a handler is set.
    pub fn empty() -> (r: IdtEntry)
        ensures
            r == Self::spec_empty(),
            r.spec_handler_offset() == 0,
            r.spec_is_present(),
    {
        proof {
            lemma_empty_entry_faults();
        }
        Self::new(0, kernel_code_selector(), IdtEntryAttributes::kernel())
    }

    /// The handler address the three offset fields put together.
    pub fn handler_offset(&self) -> (r: u64)
        ensures
            r == self.spec_handler_offset(),
    {
        (self.offset_low as u64) | ((self.offset_middle as u64) << 16u64) | ((self.offset_high as u64)
            << 32u64)
    }

    pub fn is_present(&self) -> (r: bool)
        ensures
            r == self.spec_is_present(),
    {
        self.attributes.0 & GATE_PRESENT == GATE_PRESENT
    }

    /// The entry as the processor reads it: two little-endian 64-bit words.
    pub open spec fn spec_encode(self) -> [u64; 2] {
        [
            (self.offset_low as u64) | ((self.selector.0 as u64) << 16u64) | ((self.ist as u64)
                << 32u64) | ((self.attributes.0 as u64) << 40u64) | ((self.offset_middle as u64)
                << 48u64),
            (self.offset_high as u64) | ((self.reserved as u64) << 32u64),
        ]
    }

    /// The entry as the processor reads it: two little-endian 64-bit words.
    pub fn encode(&self) -> (r: [u64; 2])
        ensures
            r@ == self.spec_encode()@,
    {
        let r = [
            (self.offset_low as u64) | ((self.selector.0 as u64) << 16u64) | ((self.ist as u64)
                << 32u64) | ((self.attributes.0 as u64) << 40u64) | ((self.offset_middle as u64)
                << 48u64),
            (self.offset_high as u64) | ((self.reserved as u64) << 32u64),
        ];
        assert(r@ =~= self.spec_encode()@);
        r
    }
}

/// The three offset fields of an entry put back together give the handler address it was built
/// from.
pub proof fn lemma_handler_offset_round_trip(
    offset: usize,
    selector: SegmentSelector,
    attributes: IdtEntryAttributes,
)
    ensures
        IdtEntry::spec_new(offset, selector, attributes).spec_handler_offset() == offset as u64,
{
    let o = offset as u64;
    assert((o & 0xFFFFu64) < 0x10000u64) by (bit_vector);
    assert(((o >> 16u64) & 0xFFFFu64) < 0x10000u64) by (bit_vector);
    assert((o >> 32u64) < 0x1_0000_0000u64) by (bit_vector);
    assert((((o & 0xFFFFu64) as u16) as u64) | ((((o >> 16u64) & 0xFFFFu64) as u16 as u64)
        << 16u64) | ((((o >> 32u64) as u32) as u64) << 32u64) == o) by (bit_vector);
}

/// The empty entry has handler address 0 and is nonetheless present, so a trap on a vector
/// that was never set faults on the null address.
pub proof fn lemma_empty_entry_faults()
    ensures
        IdtEntry::spec_empty().spec_handler_offset() == 0,
        IdtEntry::spec_empty().spec_is_present(),
{
    lemma_handler_offset_round_trip(
        0,
        SegmentSelector::spec_new(1, PrivilegeLevel::Kernel),
        IdtEntryAttributes::spec_new(PrivilegeLevel::Kernel),
    );
    assert((0x80u8 | (0u8 << 5u8) | 0x0eu8) == 0x8eu8) by (bit_vector);
    assert(0x8eu8 & 0x80u8 == 0x80u8) by (bit_vector);
}

/// A table whose every entry is empty.
pub open spec fn empty_table() -> Seq<IdtEntry> {
    Seq::new(IDT_ENTRIES as nat, |v: int| IdtEntry::spec_empty())
}

/// The table itself, owned by whoever builds it and loads it.
pub struct Idt {
    pub entries: [IdtEntry; IDT_ENTRIES],
}

impl Idt {
    /// A table whose every entry is empty.
    pub fn new() -> (r: Idt)
        ensures
            r.entries@ == empty_table(),
    {
        let empty = IdtEntry::empty();
        let r = Idt { entries: [empty; IDT_ENTRIES] };
        assert(r.entries@ =~= empty_table());
        r
    }

    /// Points `vector` at the trampoline at address `handler`, behind a present kernel interrupt
    /// gate in the kernel code segment. Every other entry is left as it was.
    pub fn set_handler(&mut self, vector: u8, handler: usize)
        ensures
            final(self).entries@ == old(self).entries@.update(
                vector as int,
                IdtEntry::spec_new(
                    handler,
                    SegmentSelector::spec_new(1, PrivilegeLevel::Kernel),
                    IdtEntryAttributes::spec_new(PrivilegeLevel::Kernel),
                ),
            ),
            final(self).entries@[vector as int].spec_handler_offset() == handler as u64,
    {
        let entry = IdtEntry::new(handler, kernel_code_selector(), IdtEntryAttributes::kernel());
        self.entries[vector as usize] = entry;
    }

    /// The entry of `vector`.
    pub fn entry(&self, vector: u8) -> (r: IdtEntry)
        ensures
            r == self.entries@[vector as int],
    {
        self.entries[vector as usize]
    }
}

/// The operand of `lidt`: the table's size in bytes minus one, and its linear address.
#[derive(Clone, Copy, Debug, PartialEq, Eq, Structural)]
pub struct IdtDescriptor {
    pub size: u16,
    pub offset: u64,
}

impl IdtDescriptor {
    pub fn new(size: u16, offset: u64) -> (r: IdtDescriptor)
        ensures
            r.size == size,
            r.offset == offset,
    {
        IdtDescriptor { size, offset }
    }
}

/// The `lidt` operand for a table placed at `address`: 256 entries of 16 bytes.
pub fn idt_descriptor(address: u64) -> (r: IdtDescriptor)
    ensures
        r.size == 16 * IDT_ENTRIES - 1,
        r.offset == address,
{
    IdtDescriptor::new((16 * IDT_ENTRIES - 1) as u16, address)
}

} // verus!
