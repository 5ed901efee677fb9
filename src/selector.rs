//! Privilege rings and segment selectors.
use vstd::prelude::*;

verus! {

/// Ring encoded in the low two bits of a segment selector.
#[derive(Clone, Copy, Debug, PartialEq, Eq, Structural)]
pub enum PrivilegeLevel {
    Kernel,
    User,
}

impl PrivilegeLevel {
    /// The ring number: 0 for the kernel, 3 for user mode.
    pub open spec fn spec_ring(self) -> u16 {
        match self {
            PrivilegeLevel::Kernel => 0,
            PrivilegeLevel::User => 3,
        }
    }

    #[verifier::when_used_as_spec(spec_ring)]
    pub fn ring(self) -> (r: u16)
        ensures
            r == self.spec_ring(),
    {
        match self {
            PrivilegeLevel::Kernel => 0,
            PrivilegeLevel::User => 3,
        }
    }

    /// The level whose ring number is `ring`, if there is one.
    pub open spec fn spec_from_ring(ring: u16) -> Option<PrivilegeLevel> {
        if ring == 0 {
            Some(PrivilegeLevel::Kernel)
        } else if ring == 3 {
            Some(PrivilegeLevel::User)
        } else {
            None
        }
    }

    pub fn from_ring(ring: u16) -> (r: Option<PrivilegeLevel>)
        ensures
            r == Self::spec_from_ring(ring),
    {
        if ring == 0 {
            Some(PrivilegeLevel::Kernel)
        } else if ring == 3 {
            Some(PrivilegeLevel::User)
        } else {
            None
        }
    }
}

/// Number of descriptors a selector's 13-bit index can address.
pub const MAX_DESCRIPTORS: u16 = 8192;

/// The 16-bit value the processor loads into a segment register: a descriptor index shifted
/// left by three, or-ed with the requested privilege level.
#[derive(Clone, Copy, Debug, PartialEq, Eq, Structural)]
pub struct SegmentSelector(pub u16);

/// The bits of the selector for `index` at ring `ring`.
pub open spec fn selector_bits(index: u16, ring: u16) -> u16 {
    ((index << 3u16) | ring) as u16
}

impl SegmentSelector {
    pub open spec fn spec_bits(self) -> u16 {
        self.0
    }

    pub open spec fn spec_new(index: u16, privilege: PrivilegeLevel) -> SegmentSelector {
        SegmentSelector(selector_bits(index, privilege.spec_ring()))
    }

    /// Descriptor index the selector refers to.
    pub open spec fn spec_index(self) -> u16 {
        self.0 >> 3u16
    }

    /// Requested privilege level held in the low two bits, where it names a known level.
    pub open spec fn spec_privilege(self) -> Option<PrivilegeLevel> {
        PrivilegeLevel::spec_from_ring(self.0 & 3u16)
    }

    pub fn new(index: u16, privilege: PrivilegeLevel) -> (r: SegmentSelector)
        ensures
            r == Self::spec_new(index, privilege),
    {
        SegmentSelector(index << 3u16 | privilege.ring())
    }

    /// Builds a selector from its raw 16-bit value.
    pub fn from_bits(bits: u16) -> (r: SegmentSelector)
        ensures
            r.spec_bits() == bits,
    {
        SegmentSelector(bits)
    }

    #[verifier::when_used_as_spec(spec_bits)]
    pub fn bits(self) -> (r: u16)
        ensures
            r == self.spec_bits(),
    {
        self.0
    }

    #[verifier::when_used_as_spec(spec_index)]
    pub fn index(self) -> (r: u16)
        ensures
            r == self.spec_index(),
    {
        self.0 >> 3u16
    }

    #[verifier::when_used_as_spec(spec_privilege)]
    pub fn privilege(self) -> (r: Option<PrivilegeLevel>)
        ensures
            r == self.spec_privilege(),
    {
        PrivilegeLevel::from_ring(self.0 & 3u16)
    }
}

/// Building a selector from an index the table can hold and a privilege level, then decoding it,
/// gives back that index and that level.
pub proof fn lemma_selector_round_trip(index: u16, privilege: PrivilegeLevel)
    requires
        index < MAX_DESCRIPTORS,
    ensures
        SegmentSelector::spec_new(index, privilege).spec_index() == index,
        SegmentSelector::spec_new(index, privilege).spec_privilege() == Some(privilege),
{
    let ring = privilege.spec_ring();
    assert(ring < 4);
    assert((((index << 3u16) | ring) as u16) >> 3u16 == index) by (bit_vector)
        requires
            index < 8192u16,
            ring < 4u16,
    ;
    assert((((index << 3u16) | ring) as u16) & 3u16 == ring) by (bit_vector)
        requires
            index < 8192u16,
            ring < 4u16,
    ;
}

/// Selector of the kernel code descriptor, the table's second entry.
pub fn kernel_code_selector() -> (r: SegmentSelector)
    ensures
        r == SegmentSelector::spec_new(1, PrivilegeLevel::Kernel),
        r.spec_bits() == 0x08,
{
    assert(((1u16 << 3u16) | 0u16) as u16 == 8u16) by (bit_vector);
    SegmentSelector::new(1, PrivilegeLevel::Kernel)
}

/// Selector of the kernel data descriptor, the table's third entry.
pub fn kernel_data_selector() -> (r: SegmentSelector)
    ensures
        r == SegmentSelector::spec_new(2, PrivilegeLevel::Kernel),
        r.spec_bits() == 0x10,
{
    assert(((2u16 << 3u16) | 0u16) as u16 == 16u16) by (bit_vector);
    SegmentSelector::new(2, PrivilegeLevel::Kernel)
}

} // verus!
