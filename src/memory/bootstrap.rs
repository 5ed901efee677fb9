//! The bootstrap allocator: before any real allocator exists, it carves blocks off the front of
//! the free regions of the memory map. It never takes a block back.
use crate::memory::addr::{align_up, lemma_power_of_two_positive, spec_is_power_of_two};
use crate::memory::frame::FrameSize;
use crate::memory::frame_allocator::MemoryRegion;
use core::marker::PhantomData;
use vstd::prelude::*;

verus! {

/// `n` rounded up to a multiple of `align`.
pub open spec fn round_up(n: u64, align: u64) -> int {
    if n % align == 0 {
        n as int
    } else {
        n - n % align + align
    }
}

/// Whether `j` is the first free region of `map` with at least `size` bytes.
pub open spec fn is_first_fit(map: Seq<MemoryRegion>, j: int, size: u64) -> bool {
    &&& 0 <= j < map.len()
    &&& map[j].usable && map[j].length >= size
    &&& forall|i: int| 0 <= i < j ==> !((#[trigger] map[i]).usable && map[i].length >= size)
}

/// `map` with `size` bytes taken off the front of region `j`.
pub open spec fn carved(map: Seq<MemoryRegion>, j: int, size: u64) -> Seq<MemoryRegion> {
    map.update(
        j,
        MemoryRegion {
            base: (map[j].base + size) as u64,
            length: (map[j].length - size) as u64,
            usable: map[j].usable,
        },
    )
}

/// Errors of the bootstrap allocator.
#[derive(Clone, Copy, Debug, PartialEq, Eq, Structural)]
pub enum BootstrapAllocError {
    /// No free region has room for the block.
    OutOfMemory,
}

/// Allocates frame-aligned blocks from the memory map's free regions, frame size `S`.
#[derive(Debug)]
pub struct BootstrapAlloc<S: FrameSize> {
    memory_map: Vec<MemoryRegion>,
    size: PhantomData<S>,
}

impl<S: FrameSize> BootstrapAlloc<S> {
    pub closed spec fn spec_memory_map(&self) -> Seq<MemoryRegion> {
        self.memory_map@
    }

    /// Every region's end fits in 64 bits.
    pub closed spec fn wf(&self) -> bool {
        forall|i: int| 0 <= i < self.memory_map@.len() ==> (#[trigger] self.memory_map@[i]).fits()
    }

    /// An allocator over `memory_map`.
    pub fn new(memory_map: Vec<MemoryRegion>) -> (r: BootstrapAlloc<S>)
        requires
            forall|i: int| 0 <= i < memory_map@.len() ==> (#[trigger] memory_map@[i]).fits(),
        ensures
            r.wf(),
            r.spec_memory_map() == memory_map@,
    {
        BootstrapAlloc { memory_map, size: PhantomData }
    }

    /// A block of at least `size` bytes, its length rounded up to the frame size: the start of
    /// the first free region with room for it, which shrinks by that much from the front; `None`
    /// where no free region has room, and the map is left as it was.
    pub fn allocate(&mut self, size: u64) -> (r: Option<u64>)
        requires
            old(self).wf(),
            size + S::spec_size() - 1 <= u64::MAX,
        ensures
            final(self).wf(),
            ({
                let aligned = round_up(size, S::spec_size()) as u64;
                ||| {
                    &&& r is None
                    &&& forall|i: int|
                        0 <= i < old(self).spec_memory_map().len() ==> !((#[trigger] old(
                            self,
                        ).spec_memory_map()[i]).usable && old(self).spec_memory_map()[i].length
                            >= aligned)
                    &&& final(self).spec_memory_map() == old(self).spec_memory_map()
                }
                ||| exists|j: int|
                    {
                        &&& is_first_fit(old(self).spec_memory_map(), j, aligned)
                        &&& r == Some(#[trigger] old(self).spec_memory_map()[j].base)
                        &&& final(self).spec_memory_map() == carved(
                            old(self).spec_memory_map(),
                            j,
                            aligned,
                        )
                    }
            }),
    {
        let frame = S::size();
        let aligned = align_up(size, frame);
        assert(aligned == round_up(size, S::spec_size()) as u64);
        let mut j: usize = 0;
        while j < self.memory_map.len()
            invariant
                j <= self.memory_map@.len(),
                self.memory_map@ == old(self).memory_map@,
                old(self).wf(),
                aligned == round_up(size, S::spec_size()) as u64,
                forall|i: int|
                    0 <= i < j ==> !((#[trigger] self.memory_map@[i]).usable
                        && self.memory_map@[i].length >= aligned),
            decreases self.memory_map@.len() - j,
        {
            let region = self.memory_map[j];
            if region.usable && region.length >= aligned {
                assert(self.memory_map@[j as int].fits());
                assert(is_first_fit(old(self).memory_map@, j as int, aligned));
                let carved_region = MemoryRegion {
                    base: region.base + aligned,
                    length: region.length - aligned,
                    usable: region.usable,
                };
                self.memory_map.set(j, carved_region);
                assert(forall|i: int|
                    0 <= i < self.memory_map@.len() ==> (#[trigger] self.memory_map@[i]).fits());
                assert(self.memory_map@ =~= carved(old(self).memory_map@, j as int, aligned));
                assert(old(self).spec_memory_map()[j as int].base == region.base);
                assert(self.spec_memory_map() == carved(
                    old(self).spec_memory_map(),
                    j as int,
                    aligned,
                ));
                return Some(region.base);
            }
            j = j + 1;
        }
        None
    }

    /// A block for `size` bytes at alignment `align`, a power of two: the size rounded up to
    /// the alignment is allocated as by `allocate`. Returns the block's start and the length
    /// asked of `allocate`.
    pub fn allocate_layout(&mut self, size: u64, align: u64) -> (r: Result<
        (u64, u64),
        BootstrapAllocError,
    >)
        requires
            old(self).wf(),
            spec_is_power_of_two(align),
            size + align - 1 + S::spec_size() - 1 <= u64::MAX,
        ensures
            final(self).wf(),
            ({
                let aligned = round_up(size, align) as u64;
                let block = round_up(aligned, S::spec_size()) as u64;
                ||| {
                    &&& r == Err::<(u64, u64), BootstrapAllocError>(
                        BootstrapAllocError::OutOfMemory,
                    )
                    &&& forall|i: int|
                        0 <= i < old(self).spec_memory_map().len() ==> !((#[trigger] old(
                            self,
                        ).spec_memory_map()[i]).usable && old(self).spec_memory_map()[i].length
                            >= block)
                    &&& final(self).spec_memory_map() == old(self).spec_memory_map()
                }
                ||| exists|j: int|
                    {
                        &&& is_first_fit(old(self).spec_memory_map(), j, block)
                        &&& r == Ok::<(u64, u64), BootstrapAllocError>(
                            (#[trigger] old(self).spec_memory_map()[j].base, aligned),
                        )
                        &&& final(self).spec_memory_map() == carved(
                            old(self).spec_memory_map(),
                            j,
                            block,
                        )
                    }
            }),
    {
        let frame = S::size();
        proof {
            lemma_power_of_two_positive(frame);
            lemma_power_of_two_positive(align);
        }
        let aligned = align_up(size, align);
        assert(aligned == round_up(size, align) as u64);
        match self.allocate(aligned) {
            Some(addr) => Ok((addr, aligned)),
            None => Err(BootstrapAllocError::OutOfMemory),
        }
    }
}

} // verus!
