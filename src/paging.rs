//! Pages, frames, page-table entry flags and the range of pages that a stack
//! allocator consumes.
use vstd::prelude::*;

verus! {

/// The size in bytes of one page of virtual memory and of one physical frame.
pub const PAGE_SIZE: usize = 4096;

/// Page numbers stay below this bound, so that the address one past the end of
/// every page fits in a `usize`.
pub const MAX_PAGE_NUMBER: usize = usize::MAX / PAGE_SIZE;

/// The address one past the end of the page numbered `n` fits in a `usize`.
pub proof fn lemma_page_end_fits(n: int)
    requires
        0 <= n < MAX_PAGE_NUMBER,
    ensures
        (n + 1) * PAGE_SIZE <= usize::MAX,
        n * PAGE_SIZE + PAGE_SIZE <= usize::MAX,
{
    let m = usize::MAX as int;
    vstd::arithmetic::div_mod::lemma_fundamental_div_mod(m, PAGE_SIZE as int);
    assert((n + 1) * PAGE_SIZE <= (m / PAGE_SIZE as int) * PAGE_SIZE) by (nonlinear_arith)
        requires
            n + 1 <= m / PAGE_SIZE as int,
    ;
    assert(m % PAGE_SIZE as int >= 0) by {
        vstd::arithmetic::div_mod::lemma_mod_pos_bound(m, PAGE_SIZE as int);
    }
    assert((n + 1) * PAGE_SIZE == n * PAGE_SIZE + PAGE_SIZE) by (nonlinear_arith);
}

/// A page of virtual memory, named by its number: the page that starts at
/// address `number * PAGE_SIZE`.
#[derive(Clone, Copy, Debug, PartialEq, Eq, Structural)]
pub struct Page {
    pub number: usize,
}

impl Page {
    /// A page whose start and end addresses fit in a `usize`.
    pub open spec fn wf(self) -> bool {
        self.number < MAX_PAGE_NUMBER
    }

    pub open spec fn spec_start_address(self) -> int {
        self.number * PAGE_SIZE
    }

    /// The first address of this page.
    pub fn start_address(&self) -> (r: usize)
        requires
            self.wf(),
        ensures
            r == self.spec_start_address(),
    {
        proof {
            lemma_page_end_fits(self.number as int);
            assert(self.number * PAGE_SIZE <= (self.number + 1) * PAGE_SIZE) by (nonlinear_arith);
        }
        self.number * PAGE_SIZE
    }

    /// The pages from `start` to `end`, both included; none when `end` lies
    /// below `start`.
    pub fn range_inclusive(start: Page, end: Page) -> (r: PageIter)
        requires
            start.wf(),
            end.wf(),
        ensures
            r.wf(),
            r.first() == start.number,
            r.len() == (if start.number <= end.number { end.number - start.number + 1 } else { 0 }),
    {
        if start.number <= end.number {
            PageIter { start: start.number, end: end.number + 1 }
        } else {
            PageIter { start: start.number, end: start.number }
        }
    }
}

/// A cursor over consecutive pages: those numbered from `start` up to `end`,
/// `end` excluded. It only moves forward.
#[derive(Clone, Copy, Debug, PartialEq, Eq, Structural)]
pub struct PageIter {
    pub start: usize,
    pub end: usize,
}

impl PageIter {
    /// Every page the cursor can still hand out has a valid number.
    pub open spec fn wf(self) -> bool {
        self.end <= MAX_PAGE_NUMBER
    }

    /// The number of the next page, if there is one.
    pub open spec fn first(self) -> int {
        self.start as int
    }

    /// How many pages are left.
    pub open spec fn len(self) -> nat {
        if self.start < self.end {
            (self.end - self.start) as nat
        } else {
            0
        }
    }

    /// Whether the page numbered `n` is still to come.
    pub open spec fn contains(self, n: int) -> bool {
        self.first() <= n < self.first() + self.len()
    }

    /// How many pages are left.
    pub fn remaining(&self) -> (r: usize)
        ensures
            r == self.len(),
    {
        if self.start < self.end {
            self.end - self.start
        } else {
            0
        }
    }

    /// Hands out the next page and moves past it, or returns `None` when no
    /// page is left, with the cursor unchanged.
    pub fn next(&mut self) -> (r: Option<Page>)
        requires
            old(self).wf(),
        ensures
            final(self).wf(),
            final(self).end == old(self).end,
            old(self).len() == 0 ==> r.is_none() && *final(self) == *old(self),
            old(self).len() > 0 ==> r == Some(Page { number: old(self).start })
                && final(self).first() == old(self).first() + 1
                && final(self).len() == old(self).len() - 1,
            r matches Some(p) ==> p.wf(),
    {
        if self.start < self.end {
            let page = Page { number: self.start };
            self.start = self.start + 1;
            Some(page)
        } else {
            None
        }
    }

    /// Skips `k` pages and hands out the one after them, moving past it. When
    /// fewer than `k + 1` pages are left, returns `None` and the cursor is
    /// used up.
    pub fn nth(&mut self, k: usize) -> (r: Option<Page>)
        requires
            old(self).wf(),
        ensures
            final(self).wf(),
            final(self).end == old(self).end,
            k < old(self).len() ==> r == Some(Page { number: (old(self).start + k) as usize })
                && final(self).first() == old(self).first() + k + 1
                && final(self).len() == old(self).len() - k - 1,
            k >= old(self).len() ==> r.is_none() && final(self).len() == 0,
            r matches Some(p) ==> p.wf(),
    {
        if self.start < self.end && k < self.end - self.start {
            let page = Page { number: self.start + k };
            self.start = self.start + k + 1;
            Some(page)
        } else {
            if self.start < self.end {
                self.start = self.end;
            }
            None
        }
    }
}

/// The page-table entry bit that lets a page be written.
pub const WRITABLE_BIT: u64 = 0x2;

/// The page-table entry bit that lets unprivileged code reach a page.
pub const USER_ACCESSIBLE_BIT: u64 = 0x4;

/// The permission bits of a page-table entry.
#[derive(Clone, Copy, Debug, PartialEq, Eq, Structural)]
pub struct EntryFlags {
    pub bits: u64,
}

impl EntryFlags {
    /// Every bit of `other` is set in `self`.
    pub open spec fn spec_contains(self, other: EntryFlags) -> bool {
        self.bits & other.bits == other.bits
    }

    pub fn writable() -> (r: EntryFlags)
        ensures
            r.bits == WRITABLE_BIT,
    {
        EntryFlags { bits: WRITABLE_BIT }
    }

    pub fn user_accessible() -> (r: EntryFlags)
        ensures
            r.bits == USER_ACCESSIBLE_BIT,
    {
        EntryFlags { bits: USER_ACCESSIBLE_BIT }
    }

    /// The bits set in either.
    pub fn union(self, other: EntryFlags) -> (r: EntryFlags)
        ensures
            r.bits == self.bits | other.bits,
    {
        EntryFlags { bits: self.bits | other.bits }
    }

    /// Whether every bit of `other` is set in `self`.
    pub fn contains(&self, other: EntryFlags) -> (r: bool)
        ensures
            r == self.spec_contains(other),
    {
        self.bits & other.bits == other.bits
    }
}

/// A frame of physical memory, named by its number.
#[derive(Clone, Copy, Debug, PartialEq, Eq, Structural)]
pub struct Frame {
    pub number: usize,
}

/// A source of physical frames.
pub trait FrameAllocator {
    /// Hands out a free frame, or `None` when none is left.
    fn allocate_frame(&mut self) -> Option<Frame>;

    /// Takes back a frame that `allocate_frame` handed out.
    fn deallocate_frame(&mut self, frame: Frame);
}

/// A page table that pages can be mapped into. Its model maps the number of
/// each mapped page to the flags it was mapped with.
pub trait Mapper {
    spec fn mapped(&self) -> Map<int, EntryFlags>;

    /// Maps `page` to `frame` with `flags`; `allocator` supplies the frames
    /// that intermediate tables need.
    fn map_to<FA: FrameAllocator>(&mut self, page: Page, frame: Frame, flags: EntryFlags, allocator: &mut FA)
        requires
            page.wf(),
        ensures
            final(self).mapped() == old(self).mapped().insert(page.number as int, flags),
    ;

    /// Maps `page` with `flags` to a frame that `allocator` supplies.
    fn map<FA: FrameAllocator>(&mut self, page: Page, flags: EntryFlags, allocator: &mut FA)
        requires
            page.wf(),
        ensures
            final(self).mapped() == old(self).mapped().insert(page.number as int, flags),
    ;
}

/// One mapping of a `PageTable`: the page, the frame behind it (`None` when
/// the frame allocator had none to give), and the flags.
#[derive(Clone, Copy, Debug, PartialEq, Eq, Structural)]
pub struct MappedPage {
    pub page: Page,
    pub frame: Option<Frame>,
    pub flags: EntryFlags,
}

/// What a sequence of mappings leaves in place: for each page, the flags of
/// its latest mapping.
pub open spec fn mappings_of(entries: Seq<MappedPage>) -> Map<int, EntryFlags>
    decreases entries.len(),
{
    if entries.len() == 0 {
        Map::empty()
    } else {
        mappings_of(entries.drop_last()).insert(
            entries.last().page.number as int,
            entries.last().flags,
        )
    }
}

/// A page table that records its mappings in the order they were made.
pub struct PageTable {
    entries: Vec<MappedPage>,
}

impl PageTable {
    pub closed spec fn spec_entries(&self) -> Seq<MappedPage> {
        self.entries@
    }

    /// A table with no mappings.
    pub fn new() -> (r: PageTable)
        ensures
            r.spec_entries() == Seq::<MappedPage>::empty(),
            r.mapped() == Map::<int, EntryFlags>::empty(),
    {
        PageTable { entries: Vec::new() }
    }

    /// The mappings made so far, oldest first.
    pub fn entries(&self) -> (r: &Vec<MappedPage>)
        ensures
            r@ == self.spec_entries(),
    {
        &self.entries
    }

    fn record(&mut self, entry: MappedPage)
        ensures
            final(self).spec_entries() == old(self).spec_entries().push(entry),
            final(self).mapped() == old(self).mapped().insert(entry.page.number as int, entry.flags),
    {
        self.entries.push(entry);
        proof {
            assert(self.entries@.drop_last() == old(self).entries@);
        }
    }
}

impl Mapper for PageTable {
    closed spec fn mapped(&self) -> Map<int, EntryFlags> {
        mappings_of(self.entries@)
    }

    fn map_to<FA: FrameAllocator>(&mut self, page: Page, frame: Frame, flags: EntryFlags, allocator: &mut FA)
    {
        self.record(MappedPage { page, frame: Some(frame), flags });
    }

    fn map<FA: FrameAllocator>(&mut self, page: Page, flags: EntryFlags, allocator: &mut FA)
    {
        match allocator.allocate_frame() {
            Some(frame) => self.map_to(page, frame, flags, allocator),
            None => self.record(MappedPage { page, frame: None, flags }),
        }
    }
}

} // verus!
