//! A bump allocator of physical frames over the bootloader's memory map. It hands out frames in
//! order through the usable regions and never takes one back.
use crate::memory::addr::PhysAddr;
use crate::memory::frame::{Frame, FrameSize};
use core::marker::PhantomData;
use vstd::prelude::*;

verus! {

/// Errors of frame allocation.
#[derive(Clone, Copy, Debug, PartialEq, Eq, Structural)]
pub enum FrameAllocatorError {
    /// The frame size is not a power of two, so addresses cannot be aligned to it.
    InvalidFrameSize,
    /// No usable memory is left.
    NoFreeFrames,
}

/// One entry of the bootloader's memory map, as the allocator reads it.
#[derive(Clone, Copy, Debug, PartialEq, Eq, Structural)]
pub struct MemoryRegion {
    pub base: u64,
    pub length: u64,
    /// Whether the bootloader reports the region as free for the kernel's use.
    pub usable: bool,
}

impl MemoryRegion {
    /// The region's end, one past its last byte, fits in 64 bits.
    pub open spec fn fits(self) -> bool {
        self.base + self.length <= u64::MAX
    }
}

/// Whether `r` is a region the allocator may move to once it has used memory up to `end`: usable,
/// starting above `end`, and with room for a frame of `size` bytes.
pub open spec fn is_candidate(r: MemoryRegion, end: u64, size: u64) -> bool {
    r.usable && r.base > end && r.length >= size
}

/// Whether `j` is the first candidate of `regions`, in map order.
pub open spec fn is_first_candidate(regions: Seq<MemoryRegion>, j: int, end: u64, size: u64) -> bool {
    &&& 0 <= j < regions.len()
    &&& is_candidate(regions[j], end, size)
    &&& forall|i: int| 0 <= i < j ==> !is_candidate(#[trigger] regions[i], end, size)
}

/// Whether `regions` has no candidate.
pub open spec fn no_candidate(regions: Seq<MemoryRegion>, end: u64, size: u64) -> bool {
    forall|i: int| 0 <= i < regions.len() ==> !is_candidate(#[trigger] regions[i], end, size)
}

/// What the kernel asks of a frame allocator.
pub trait FrameAllocator<S: FrameSize> {
    spec fn well_formed(&self) -> bool;

    /// Allocates one frame of size `S`.
    fn allocate_frame(&mut self) -> (r: Result<Frame<S>, FrameAllocatorError>)
        requires
            old(self).well_formed(),
        ensures
            final(self).well_formed(),
    ;
}

/// Bumps through the usable regions of the memory map: frames come from the current region,
/// from `current_base` up to `current_end`, and when it is used up from the next usable region
/// above it.
#[derive(Debug)]
pub struct BumpFrameAllocator<S: FrameSize> {
    regions: Vec<MemoryRegion>,
    current_base: u64,
    current_end: u64,
    size: PhantomData<S>,
}

impl<S: FrameSize> BumpFrameAllocator<S> {
    pub closed spec fn spec_regions(&self) -> Seq<MemoryRegion> {
        self.regions@
    }

    pub closed spec fn spec_current_base(&self) -> u64 {
        self.current_base
    }

    pub closed spec fn spec_current_end(&self) -> u64 {
        self.current_end
    }

    /// Every region's end fits in 64 bits, and the current region is not overrun.
    pub closed spec fn wf(&self) -> bool {
        &&& forall|i: int| 0 <= i < self.regions@.len() ==> (#[trigger] self.regions@[i]).fits()
        &&& self.current_base <= self.current_end
    }

    /// An allocator that starts at the first usable region of `regions`.
    pub fn new(regions: Vec<MemoryRegion>) -> (r: BumpFrameAllocator<S>)
        requires
            exists|i: int| 0 <= i < regions@.len() && (#[trigger] regions@[i]).usable,
            forall|i: int| 0 <= i < regions@.len() ==> (#[trigger] regions@[i]).fits(),
        ensures
            r.wf(),
            r.spec_regions() == regions@,
            exists|j: int|
                {
                    &&& 0 <= j < regions@.len()
                    &&& (#[trigger] regions@[j]).usable
                    &&& forall|i: int| 0 <= i < j ==> !(#[trigger] regions@[i]).usable
                    &&& r.spec_current_base() == regions@[j].base
                    &&& r.spec_current_end() == regions@[j].base + regions@[j].length
                },
    {
        let mut j: usize = 0;
        while j < regions.len() && !regions[j].usable
            invariant
                j <= regions@.len(),
                forall|i: int| 0 <= i < j ==> !(#[trigger] regions@[i]).usable,
                exists|i: int| 0 <= i < regions@.len() && (#[trigger] regions@[i]).usable,
            decreases regions@.len() - j,
        {
            j = j + 1;
        }
        let first = regions[j];
        assert(regions@[j as int].usable);
        BumpFrameAllocator {
            current_base: first.base,
            current_end: first.base + first.length,
            regions,
            size: PhantomData,
        }
    }

    /// The first usable region above the current one with room for a frame.
    fn find_next(&self, size: u64) -> (r: Result<MemoryRegion, FrameAllocatorError>)
        ensures
            r matches Ok(region) ==> exists|j: int|
                is_first_candidate(self.regions@, j, self.current_end, size) && region
                    == self.regions@[j],
            r matches Err(e) ==> e == FrameAllocatorError::NoFreeFrames && no_candidate(
                self.regions@,
                self.current_end,
                size,
            ),
    {
        let mut j: usize = 0;
        while j < self.regions.len()
            invariant
                j <= self.regions@.len(),
                forall|i: int|
                    0 <= i < j ==> !is_candidate(#[trigger] self.regions@[i], self.current_end, size),
            decreases self.regions@.len() - j,
        {
            let region = self.regions[j];
            if region.usable && region.base > self.current_end && region.length >= size {
                assert(is_first_candidate(self.regions@, j as int, self.current_end, size));
                return Ok(region);
            }
            j = j + 1;
        }
        Err(FrameAllocatorError::NoFreeFrames)
    }

    /// Allocates one frame: at `current_base` while the current region has room for it, else at
    /// the start of the first usable region above the current one with room for a frame, which
    /// becomes the current region. Frames never overlap and come in increasing order.
    pub fn allocate(&mut self) -> (r: Result<Frame<S>, FrameAllocatorError>)
        requires
            old(self).wf(),
        ensures
            final(self).wf(),
            final(self).spec_regions() == old(self).spec_regions(),
            old(self).spec_current_end() - old(self).spec_current_base() >= S::spec_size() ==> {
                &&& r matches Ok(f) && f.spec_start() == old(self).spec_current_base()
                    - old(self).spec_current_base() % S::spec_size()
                &&& final(self).spec_current_base() == old(self).spec_current_base()
                    + S::spec_size()
                &&& final(self).spec_current_end() == old(self).spec_current_end()
            },
            old(self).spec_current_end() - old(self).spec_current_base() < S::spec_size() ==> {
                ||| {
                    &&& no_candidate(
                        old(self).spec_regions(),
                        old(self).spec_current_end(),
                        S::spec_size(),
                    )
                    &&& r == Err::<Frame<S>, FrameAllocatorError>(FrameAllocatorError::NoFreeFrames)
                    &&& final(self).spec_current_base() == old(self).spec_current_base()
                    &&& final(self).spec_current_end() == old(self).spec_current_end()
                }
                ||| exists|j: int|
                    {
                        let region = #[trigger] old(self).spec_regions()[j];
                        &&& is_first_candidate(
                            old(self).spec_regions(),
                            j,
                            old(self).spec_current_end(),
                            S::spec_size(),
                        )
                        &&& r matches Ok(f) && f.spec_start() == region.base - region.base
                            % S::spec_size()
                        &&& final(self).spec_current_base() == region.base + S::spec_size()
                        &&& final(self).spec_current_end() == region.base + region.length
                    }
            },
    {
        let size = S::size();
        if self.current_end - self.current_base >= size {
            let addr = self.current_base;
            self.current_base = addr + size;
            return match Frame::containing(PhysAddr::new(addr)) {
                Ok(f) => Ok(f),
                Err(_) => Err(FrameAllocatorError::InvalidFrameSize),
            };
        }
        let next = match self.find_next(size) {
            Ok(next) => next,
            Err(e) => {
                return Err(e);
            },
        };
        proof {
            let j = choose|j: int|
                is_first_candidate(self.regions@, j, self.current_end, size) && next
                    == self.regions@[j];
            assert(self.regions@[j].fits());
        }
        self.current_base = next.base + size;
        self.current_end = next.base + next.length;
        match Frame::containing(PhysAddr::new(next.base)) {
            Ok(f) => Ok(f),
            Err(_) => Err(FrameAllocatorError::InvalidFrameSize),
        }
    }
}

impl<S: FrameSize> FrameAllocator<S> for BumpFrameAllocator<S> {
    open spec fn well_formed(&self) -> bool {
        self.wf()
    }

    fn allocate_frame(&mut self) -> (r: Result<Frame<S>, FrameAllocatorError>) {
        self.allocate()
    }
}

} // verus!
