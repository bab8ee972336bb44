//! A bump allocator that carves stacks, each below an unmapped guard page, out
//! of a reserved range of pages.
use vstd::prelude::*;

use crate::paging::{
    lemma_page_end_fits, EntryFlags, FrameAllocator, Mapper, Page, PageIter, PAGE_SIZE,
    USER_ACCESSIBLE_BIT, WRITABLE_BIT,
};
use crate::vma::VirtualMemoryArea;

verus! {

/// The size in bytes of a machine word.
pub open spec fn word_size() -> int {
    vstd::layout::size_of::<usize>() as int
}

/// The flags every page of a new stack is mapped with: writable, and reachable
/// from unprivileged code in user mode.
pub open spec fn stack_flags(usermode: bool) -> EntryFlags {
    if usermode {
        EntryFlags { bits: USER_ACCESSIBLE_BIT | WRITABLE_BIT }
    } else {
        EntryFlags { bits: WRITABLE_BIT }
    }
}

/// The label of the memory area of a new stack.
pub open spec fn stack_label(usermode: bool) -> Seq<char> {
    if usermode {
        "User Stack"@
    } else {
        "Kernel Stack"@
    }
}

/// User-mode stacks are writable and reachable from unprivileged code;
/// kernel stacks are writable only. Their memory areas are labelled
/// accordingly.
pub proof fn lemma_stack_flags()
    ensures
        stack_flags(true).spec_contains(EntryFlags { bits: WRITABLE_BIT }),
        stack_flags(true).spec_contains(EntryFlags { bits: USER_ACCESSIBLE_BIT }),
        stack_flags(false).spec_contains(EntryFlags { bits: WRITABLE_BIT }),
        !stack_flags(false).spec_contains(EntryFlags { bits: USER_ACCESSIBLE_BIT }),
        stack_label(true) == "User Stack"@,
        stack_label(false) == "Kernel Stack"@,
{
    assert((0x4u64 | 0x2u64) & 0x2u64 == 0x2u64) by (bit_vector);
    assert((0x4u64 | 0x2u64) & 0x4u64 == 0x4u64) by (bit_vector);
    assert(0x2u64 & 0x2u64 == 0x2u64) by (bit_vector);
    assert(0x2u64 & 0x4u64 != 0x4u64) by (bit_vector);
}

/// Hands out stacks from a range of pages that it consumes from the bottom
/// up and never gives back.
pub struct StackAllocator {
    pub range: PageIter,
    pub usermode: bool,
}

impl StackAllocator {
    pub open spec fn wf(self) -> bool {
        self.range.wf()
    }

    /// The page that the next allocation leaves unmapped below its stack.
    pub open spec fn next_guard_page(self) -> int {
        self.range.first()
    }

    /// Whether a stack of `size` pages fits: one guard page and `size` pages
    /// are left.
    pub open spec fn can_allocate(self, size: int) -> bool {
        size >= 1 && self.range.len() >= size + 1
    }

    /// The page numbers a stack of `size` pages takes from this allocator:
    /// its guard page and the stack's own pages.
    pub open spec fn footprint(self, size: int) -> Set<int> {
        Set::new(|n: int| self.next_guard_page() <= n <= self.next_guard_page() + size)
    }

    /// The mappings a stack of `size` pages adds to the page table: each of
    /// its pages, and not the guard page below them, with the stack's flags.
    pub open spec fn stack_mappings(self, size: int) -> Map<int, EntryFlags> {
        Map::new(
            |n: int| self.next_guard_page() < n <= self.next_guard_page() + size,
            |n: int| stack_flags(self.usermode),
        )
    }

    /// `after`, `stack` and `vma` are what a successful allocation of `size`
    /// pages from `before` gives: the guard page is the first page left in
    /// `before`, the stack's pages follow it, and the range moves past them.
    pub open spec fn allocated(
        before: StackAllocator,
        size: int,
        after: StackAllocator,
        stack: Stack,
        vma: VirtualMemoryArea,
    ) -> bool {
        let guard = before.next_guard_page();
        let bottom = (guard + 1) * PAGE_SIZE;
        &&& after.usermode == before.usermode
        &&& after.range.end == before.range.end
        &&& after.range.first() == guard + size + 1
        &&& after.range.len() == before.range.len() - size - 1
        &&& stack.spec_bottom() == bottom
        &&& stack.spec_size() == size * PAGE_SIZE
        &&& stack.spec_top() == (guard + 1 + size) * PAGE_SIZE
        &&& vma.start == bottom
        &&& vma.size == size * PAGE_SIZE
        &&& vma.flags == stack_flags(before.usermode)
        &&& vma.desc@ == stack_label(before.usermode)
    }

    /// An allocator over `page_range`; it allocates nothing yet.
    pub fn new(page_range: PageIter, usermode: bool) -> (r: StackAllocator)
        ensures
            r.range == page_range,
            r.usermode == usermode,
    {
        StackAllocator { range: page_range, usermode: usermode }
    }

    /// Takes one guard page and `size_in_pages` pages above it from the range,
    /// maps those pages through `active_table` with frames from
    /// `frame_allocator`, and returns the new stack with its memory area. The
    /// guard page stays unmapped, so that an overflow of the stack faults.
    /// Returns `None`, with the range untouched, when `size_in_pages` is zero
    /// or the range has too few pages left.
    pub fn alloc_stack<M: Mapper, FA: FrameAllocator>(
        &mut self,
        active_table: &mut M,
        frame_allocator: &mut FA,
        size_in_pages: usize,
    ) -> (r: Option<(Stack, VirtualMemoryArea)>)
        requires
            old(self).wf(),
        ensures
            final(self).wf(),
            r.is_some() <==> old(self).can_allocate(size_in_pages as int),
            size_in_pages == 0 ==> r.is_none() && *final(self) == *old(self),
            r.is_none() ==> *final(self) == *old(self),
            r.is_none() ==> *final(active_table) == *old(active_table),
            r.is_none() ==> *final(frame_allocator) == *old(frame_allocator),
            r.is_some() ==> final(active_table).mapped() == old(active_table).mapped().union_prefer_right(
                old(self).stack_mappings(size_in_pages as int),
            ),
            r matches Some((stack, vma)) ==> StackAllocator::allocated(
                *old(self),
                size_in_pages as int,
                *final(self),
                stack,
                vma,
            ),
    {
        if size_in_pages == 0 {
            return None;
        }
        let flags = if self.usermode {
            EntryFlags::user_accessible().union(EntryFlags::writable())
        } else {
            EntryFlags::writable()
        };
        assert(flags == stack_flags(self.usermode));

        // work on a copy, so that the range only moves on success
        let mut range = self.range.clone();
        let guard_page = range.next();
        let stack_start = range.next();
        let stack_end = if size_in_pages == 1 {
            stack_start
        } else {
            // the start page is taken already: skip to the last of the rest
            range.nth(size_in_pages - 2)
        };

        match (guard_page, stack_start, stack_end) {
            (Some(_), Some(start), Some(end)) => {
                self.range = range;
                // map the stack's pages, not the guard page below them
                let mut pages = Page::range_inclusive(start, end);
                while pages.remaining() > 0
                    invariant
                        pages.wf(),
                        pages.end == end.number + 1,
                        start.number <= pages.first() <= end.number + 1,
                        start.number == old(self).next_guard_page() + 1,
                        end.number == old(self).next_guard_page() + size_in_pages,
                        flags == stack_flags(old(self).usermode),
                        active_table.mapped() == old(active_table).mapped().union_prefer_right(
                            Map::new(
                                |n: int| start.number <= n < pages.first(),
                                |n: int| flags,
                            ),
                        ),
                    decreases pages.len(),
                {
                    match pages.next() {
                        Some(page) => {
                            active_table.map(page, flags, frame_allocator);
                            assert(active_table.mapped() =~= old(active_table).mapped().union_prefer_right(
                                Map::new(
                                    |n: int| start.number <= n < pages.first(),
                                    |n: int| flags,
                                ),
                            ));
                        },
                        None => {},
                    }
                }
                assert(active_table.mapped() =~= old(active_table).mapped().union_prefer_right(
                    old(self).stack_mappings(size_in_pages as int),
                ));
                proof {
                    lemma_page_end_fits(end.number as int);
                    let guard = old(self).next_guard_page();
                    assert(start.number == guard + 1);
                    assert(end.number == guard + size_in_pages);
                    assert((guard + 1 + size_in_pages) * PAGE_SIZE - (guard + 1) * PAGE_SIZE
                        == size_in_pages * PAGE_SIZE) by (nonlinear_arith);
                    assert((end.number + 1) * PAGE_SIZE == end.number * PAGE_SIZE + PAGE_SIZE)
                        by (nonlinear_arith);
                    lemma_stack_flags();
                }
                let bottom = start.start_address();
                let top_of_stack = end.start_address() + PAGE_SIZE;
                let vma = VirtualMemoryArea::new(
                    bottom,
                    top_of_stack - bottom,
                    flags,
                    if flags.contains(EntryFlags::user_accessible()) {
                        "User Stack"
                    } else {
                        "Kernel Stack"
                    },
                );
                Some((Stack::new(top_of_stack, bottom), vma))
            },
            _ => None,
        }
    }
}

/// After a successful allocation the guard page lies just below the stack,
/// and the stack holds exactly the `size` pages above it, never the guard
/// page. The pages the allocation maps are the stack's pages, with the flags
/// of its memory area; the guard page is not among them.
pub proof fn lemma_guard_page_below_stack(
    before: StackAllocator,
    size: int,
    after: StackAllocator,
    stack: Stack,
    vma: VirtualMemoryArea,
)
    requires
        StackAllocator::allocated(before, size, after, stack, vma),
        size >= 1,
    ensures
        (before.next_guard_page() + 1) * PAGE_SIZE == stack.spec_bottom(),
        !stack.holds_page(before.next_guard_page()),
        forall|n: int|
            stack.holds_page(n) <==> before.next_guard_page() < n <= before.next_guard_page()
                + size,
        !before.stack_mappings(size).dom().contains(before.next_guard_page()),
        forall|n: int| #[trigger]
            before.stack_mappings(size).dom().contains(n) <==> stack.holds_page(n),
        forall|n: int| #[trigger]
            before.stack_mappings(size).dom().contains(n) ==> before.stack_mappings(size)[n]
                == vma.flags,
{
    let g = before.next_guard_page();
    assert forall|n: int|
        stack.holds_page(n) <==> g < n <= g + size by {
        if g < n <= g + size {
            assert((g + 1) * PAGE_SIZE <= n * PAGE_SIZE) by (nonlinear_arith)
                requires
                    g + 1 <= n,
            ;
            assert(n * PAGE_SIZE < (g + 1 + size) * PAGE_SIZE) by (nonlinear_arith)
                requires
                    n < g + 1 + size,
            ;
        }
        if n <= g {
            assert(n * PAGE_SIZE < (g + 1) * PAGE_SIZE) by (nonlinear_arith)
                requires
                    n < g + 1,
            ;
        }
        if n > g + size {
            assert(n * PAGE_SIZE >= (g + 1 + size) * PAGE_SIZE) by (nonlinear_arith)
                requires
                    n >= g + 1 + size,
            ;
        }
    }
}

/// Two allocations in a row from one allocator take disjoint pages, guard
/// pages included: the second guard page lies above the first stack.
pub proof fn lemma_consecutive_allocations_disjoint(
    a0: StackAllocator,
    size1: int,
    a1: StackAllocator,
    stack1: Stack,
    vma1: VirtualMemoryArea,
    size2: int,
    a2: StackAllocator,
    stack2: Stack,
    vma2: VirtualMemoryArea,
)
    requires
        StackAllocator::allocated(a0, size1, a1, stack1, vma1),
        StackAllocator::allocated(a1, size2, a2, stack2, vma2),
        size1 >= 1,
        size2 >= 1,
    ensures
        a0.footprint(size1).disjoint(a1.footprint(size2)),
        a1.next_guard_page() > a0.next_guard_page() + size1,
        a1.next_guard_page() * PAGE_SIZE == stack1.spec_top(),
        stack1.spec_top() < stack2.spec_bottom(),
{
    let g = a1.next_guard_page();
    assert((g + 1) * PAGE_SIZE == g * PAGE_SIZE + PAGE_SIZE) by (nonlinear_arith);
}

/// A stack from a successful allocation spans `size` pages, and its top
/// leaves room for a word below it.
pub proof fn lemma_allocated_stack_bounds(
    before: StackAllocator,
    size: int,
    after: StackAllocator,
    stack: Stack,
    vma: VirtualMemoryArea,
)
    requires
        StackAllocator::allocated(before, size, after, stack, vma),
        size >= 1,
    ensures
        stack.spec_top() == stack.spec_bottom() + stack.spec_size(),
        stack.spec_size() == size * PAGE_SIZE,
        stack.spec_top() >= 2 * PAGE_SIZE,
        stack.spec_top() >= word_size(),
{
    broadcast use vstd::layout::layout_of_primitives;

    let g = before.next_guard_page();
    assert((g + 1 + size) * PAGE_SIZE >= 2 * PAGE_SIZE) by (nonlinear_arith)
        requires
            g >= 0,
            size >= 1,
    ;
    assert(word_size() <= 8);
}

/// The memory of one stack: from `bottom`, included, up to `top`, excluded.
/// The stack grows downward from `top`.
#[derive(Debug)]
pub struct Stack {
    top: usize,
    bottom: usize,
}

impl Stack {
    #[verifier::type_invariant]
    spec fn inv(self) -> bool {
        self.top > self.bottom
    }

    pub closed spec fn spec_top(self) -> int {
        self.top as int
    }

    pub closed spec fn spec_bottom(self) -> int {
        self.bottom as int
    }

    pub open spec fn spec_size(self) -> int {
        self.spec_top() - self.spec_bottom()
    }

    /// Whether the page numbered `n` lies inside the stack.
    pub open spec fn holds_page(self, n: int) -> bool {
        self.spec_bottom() <= n * PAGE_SIZE < self.spec_top()
    }

    /// A stack that spans from `bottom` up to `top`.
    pub fn new(top: usize, bottom: usize) -> (r: Stack)
        requires
            top > bottom,
        ensures
            r.spec_top() == top,
            r.spec_bottom() == bottom,
    {
        Stack { top: top, bottom: bottom }
    }

    /// The address just above the stack, which is not part of it.
    pub fn top_unusable(&self) -> (r: usize)
        ensures
            r == self.spec_top(),
    {
        self.top
    }

    /// The highest address at which a word fits in the stack.
    pub fn top_usable(&self) -> (r: usize)
        requires
            self.spec_top() >= word_size(),
        ensures
            r == self.spec_top() - word_size(),
    {
        self.top - core::mem::size_of::<usize>()
    }

    /// The lowest address of the stack.
    pub fn bottom(&self) -> (r: usize)
        ensures
            r == self.spec_bottom(),
    {
        self.bottom
    }

    /// The size of the stack in bytes.
    pub fn size(&self) -> (r: usize)
        ensures
            r == self.spec_size(),
            r > 0,
    {
        proof {
            use_type_invariant(self);
        }
        self.top_unusable() - self.bottom
    }
}

} // verus!
