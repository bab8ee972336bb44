//! Carves execution stacks, each below an unmapped guard page, out of a reserved
//! range of virtual pages, and maps them through a caller-supplied page table.
//! Also holds the state types of a modal text editor.

pub mod editor;
pub mod paging;
pub mod stack_allocator;
pub mod vma;

pub use paging::{
    EntryFlags, Frame, FrameAllocator, MappedPage, Mapper, Page, PageIter, PageTable, PAGE_SIZE,
};
pub use stack_allocator::{Stack, StackAllocator};
pub use vma::VirtualMemoryArea;
