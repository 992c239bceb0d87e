use std::sync::atomic::{AtomicUsize, Ordering};
use vstd::prelude::*;

verus! {

/// The granule of the allocator: every size is a multiple of it, and every
/// block is aligned to it.
pub const GRANULE: usize = 4;

/// Why a request is turned down.
#[derive(Debug, Clone, Copy, PartialEq, Eq, Structural)]
pub enum AllocRefusal {
    /// The requested size is not a multiple of four bytes.
    SizeNotMultipleOfFour,
    /// The requested alignment is stricter than four bytes.
    AlignmentTooHigh,
}

impl AllocRefusal {
    /// The diagnostic printed for this refusal.
    pub fn message(&self) -> (r: &'static str)
        ensures
            *self == AllocRefusal::SizeNotMultipleOfFour ==> r@
                == "WhimsicalAllocator only supports allocations in chunks of 4 bytes!"@,
            *self == AllocRefusal::AlignmentTooHigh ==> r@
                == "WhimsicalAllocator alignment requirement too high!"@,
    {
        match self {
            AllocRefusal::SizeNotMultipleOfFour => {
                "WhimsicalAllocator only supports allocations in chunks of 4 bytes!"
            },
            AllocRefusal::AlignmentTooHigh => "WhimsicalAllocator alignment requirement too high!",
        }
    }
}

/// The layout, as `(size, align)`, that a request of `size` bytes aligned to
/// `align` is served with, or why it is refused.
pub open spec fn vetted(size: usize, align: usize) -> Result<(usize, usize), AllocRefusal> {
    if size % GRANULE != 0 {
        Err(AllocRefusal::SizeNotMultipleOfFour)
    } else if align > GRANULE {
        Err(AllocRefusal::AlignmentTooHigh)
    } else {
        Ok((size, GRANULE))
    }
}

/// An allocator that serves only sizes made of four-byte chunks, at most
/// four-byte aligned, and keeps a running count of the bytes it has handed out.
pub struct WhimsicalAllocator {
    /// Bytes currently allocated through this allocator.
    pub allocated_bytes: AtomicUsize,
}

impl WhimsicalAllocator {
    /// An allocator with nothing allocated.
    pub fn new() -> (r: Self) {
        WhimsicalAllocator { allocated_bytes: AtomicUsize::new(0) }
    }

    /// Decides a request: sizes that are not a multiple of four are refused
    /// first, then alignments above four; anything else is served with the
    /// same size at alignment four.
    pub fn vet_layout(size: usize, align: usize) -> (r: Result<(usize, usize), AllocRefusal>)
        ensures
            r == vetted(size, align),
    {
        if size % GRANULE != 0 {
            Err(AllocRefusal::SizeNotMultipleOfFour)
        } else if align > GRANULE {
            Err(AllocRefusal::AlignmentTooHigh)
        } else {
            Ok((size, GRANULE))
        }
    }

    /// Counts `size` more bytes as allocated when a block of that size was
    /// obtained; a failed attempt counts nothing.
    pub fn record_alloc(&self, obtained: bool, size: usize) {
        if obtained {
            self.allocated_bytes.fetch_add(size, Ordering::SeqCst);
        }
    }

    /// Counts `size` fewer bytes as allocated, after a block was returned.
    pub fn record_dealloc(&self, size: usize) {
        self.allocated_bytes.fetch_sub(size, Ordering::SeqCst);
    }

    /// The count of bytes currently allocated.
    pub fn allocated(&self) -> (r: usize) {
        self.allocated_bytes.load(Ordering::SeqCst)
    }
}

} // verus!
