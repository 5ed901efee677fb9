//! Frames of physical memory.
use crate::memory::addr::{spec_is_power_of_two, AddrError, PhysAddr};
use core::marker::PhantomData;
use vstd::arithmetic::power2::{lemma2_to64, pow2};
use vstd::prelude::*;

verus! {

/// A frame size, fixed per type.
pub trait FrameSize {
    spec fn spec_size() -> u64;

    /// Size of a frame in bytes, a power of two.
    fn size() -> (r: u64)
        ensures
            r == Self::spec_size(),
            spec_is_power_of_two(r),
    ;

    /// The size for people to read, such as `4 KiB`.
    fn size_str() -> &'static str;
}

/// 4 KiB frames, the base page size of x86_64.
#[derive(Clone, Copy, Debug, PartialEq, Eq)]
pub struct FrameSize4K;

impl FrameSize for FrameSize4K {
    open spec fn spec_size() -> u64 {
        4096
    }

    fn size() -> (r: u64) {
        proof {
            lemma2_to64();
            assert(4096 == pow2(12));
        }
        4096
    }

    fn size_str() -> &'static str {
        "4 KiB"
    }
}

/// One frame of physical memory of size `S`, named by its start address.
#[derive(Debug)]
pub struct Frame<S: FrameSize> {
    start: PhysAddr,
    size: PhantomData<S>,
}

impl<S: FrameSize> Frame<S> {
    pub closed spec fn spec_start(&self) -> u64 {
        self.start.0
    }

    /// The frame that holds `addr`: its start is `addr` aligned down to the frame size.
    pub fn containing_addr(addr: PhysAddr) -> (r: Frame<S>)
        ensures
            r.spec_start() == addr.0 - addr.0 % S::spec_size(),
    {
        let size = S::size();
        let start = match addr.align_down(size) {
            Ok(start) => start,
            Err(_) => addr,
        };
        Frame { start, size: PhantomData }
    }

    /// The frame that holds `addr`, or the error of aligning it down to the frame size.
    pub fn containing(addr: PhysAddr) -> (r: Result<Frame<S>, AddrError>)
        ensures
            r matches Ok(f) && f.spec_start() == addr.0 - addr.0 % S::spec_size(),
    {
        let start = addr.align_down(S::size())?;
        Ok(Frame { start, size: PhantomData })
    }

    /// The frame's first address.
    pub fn start_addr(&self) -> (r: PhysAddr)
        ensures
            r.0 == self.spec_start(),
    {
        self.start
    }
}

} // verus!
