//! The descriptor of one purpose-tagged region of an address space.
use vstd::prelude::*;

use crate::paging::EntryFlags;

verus! {

/// A region of virtual memory: where it starts, how many bytes it spans, the
/// flags it is mapped with, and what it is for.
#[derive(Clone, Copy, Debug)]
pub struct VirtualMemoryArea {
    pub start: usize,
    pub size: usize,
    pub flags: EntryFlags,
    pub desc: &'static str,
}

impl VirtualMemoryArea {
    pub fn new(start: usize, size: usize, flags: EntryFlags, desc: &'static str) -> (r:
        VirtualMemoryArea)
        ensures
            r.start == start,
            r.size == size,
            r.flags == flags,
            r.desc == desc,
    {
        VirtualMemoryArea { start, size, flags, desc }
    }

    pub fn start_address(&self) -> (r: usize)
        ensures
            r == self.start,
    {
        self.start
    }

    pub fn size(&self) -> (r: usize)
        ensures
            r == self.size,
    {
        self.size
    }

    pub fn flags(&self) -> (r: EntryFlags)
        ensures
            r == self.flags,
    {
        self.flags
    }

    pub fn desc(&self) -> (r: &'static str)
        ensures
            r == self.desc,
    {
        self.desc
    }
}

} // verus!
