use stack_alloc::{
    EntryFlags, Frame, FrameAllocator, Page, PageIter, PageTable, Stack, StackAllocator,
    VirtualMemoryArea, PAGE_SIZE,
};

struct Frames {
    next: usize,
    handed_out: usize,
}

impl FrameAllocator for Frames {
    fn allocate_frame(&mut self) -> Option<Frame> {
        let f = Frame { number: self.next };
        self.next += 1;
        self.handed_out += 1;
        Some(f)
    }

    fn deallocate_frame(&mut self, _frame: Frame) {
        self.handed_out -= 1;
    }
}

fn frames() -> Frames {
    Frames { next: 100, handed_out: 0 }
}

fn pages(first: usize, last: usize) -> PageIter {
    Page::range_inclusive(Page { number: first }, Page { number: last })
}

fn take_stack(
    a: &mut StackAllocator,
    t: &mut PageTable,
    f: &mut Frames,
    n: usize,
) -> Option<(Stack, VirtualMemoryArea)> {
    a.alloc_stack(t, f, n)
}

#[test]
fn one_page_stack_spans_one_page() {
    let (mut t, mut f) = (PageTable::new(), frames());
    let mut a = StackAllocator::new(pages(10, 19), false);
    let (s, v) = take_stack(&mut a, &mut t, &mut f, 1).unwrap();
    assert_eq!(s.size(), PAGE_SIZE);
    assert_eq!(s.bottom(), 11 * PAGE_SIZE);
    assert_eq!(s.top_unusable(), 12 * PAGE_SIZE);
    assert_eq!(v.size(), PAGE_SIZE);
    assert_eq!(t.entries().len(), 1);
    assert_eq!(t.entries()[0].page.number, 11);
}

#[test]
fn stack_size_is_pages_times_page_size() {
    for n in 1..=5usize {
        let (mut t, mut f) = (PageTable::new(), frames());
        let mut a = StackAllocator::new(pages(0, 9), false);
        let (s, v) = take_stack(&mut a, &mut t, &mut f, n).unwrap();
        assert_eq!(s.size(), n * PAGE_SIZE);
        assert_eq!(v.size(), n * PAGE_SIZE);
        assert_eq!(v.start_address(), s.bottom());
        assert_eq!(a.range.remaining(), 10 - n - 1);
    }
}

#[test]
fn guard_page_is_below_stack_and_never_mapped() {
    let (mut t, mut f) = (PageTable::new(), frames());
    let mut a = StackAllocator::new(pages(50, 59), true);
    let (s, _) = take_stack(&mut a, &mut t, &mut f, 4).unwrap();
    let guard = Page { number: 50 };
    assert_eq!(guard.start_address() + PAGE_SIZE, s.bottom());
    let mapped: Vec<usize> = t.entries().iter().map(|m| m.page.number).collect();
    assert_eq!(mapped, vec![51, 52, 53, 54]);
    assert!(!mapped.contains(&50));
    assert_eq!(f.handed_out, 4);
}

#[test]
fn top_usable_is_one_word_below_top() {
    let (mut t, mut f) = (PageTable::new(), frames());
    let mut a = StackAllocator::new(pages(3, 12), false);
    let (s, _) = take_stack(&mut a, &mut t, &mut f, 3).unwrap();
    assert_eq!(s.top_usable(), s.top_unusable() - core::mem::size_of::<usize>());
    assert_eq!(s.top_unusable(), s.bottom() + s.size());
    assert_eq!(s.top_unusable(), 7 * PAGE_SIZE);
}

#[test]
fn zero_pages_is_refused_and_changes_nothing() {
    let (mut t, mut f) = (PageTable::new(), frames());
    let mut a = StackAllocator::new(pages(20, 29), false);
    let before = a.range;
    assert!(take_stack(&mut a, &mut t, &mut f, 0).is_none());
    assert_eq!(a.range, before);
    assert!(t.entries().is_empty());
    let (s, _) = take_stack(&mut a, &mut t, &mut f, 2).unwrap();
    assert_eq!(s.bottom(), 21 * PAGE_SIZE);
}

#[test]
fn consecutive_stacks_do_not_overlap() {
    let (mut t, mut f) = (PageTable::new(), frames());
    let mut a = StackAllocator::new(pages(0, 99), false);
    let (s1, _) = take_stack(&mut a, &mut t, &mut f, 3).unwrap();
    let guard2 = a.range.start;
    let (s2, _) = take_stack(&mut a, &mut t, &mut f, 2).unwrap();
    assert_eq!(guard2 * PAGE_SIZE, s1.top_unusable());
    assert!(guard2 * PAGE_SIZE + PAGE_SIZE == s2.bottom());
    assert!(s1.top_unusable() < s2.bottom());
    let mut mapped: Vec<usize> = t.entries().iter().map(|m| m.page.number).collect();
    assert_eq!(mapped, vec![1, 2, 3, 5, 6]);
    mapped.dedup();
    assert_eq!(mapped.len(), 5);
}

#[test]
fn too_few_pages_leaves_range_unchanged() {
    let (mut t, mut f) = (PageTable::new(), frames());
    let mut a = StackAllocator::new(pages(40, 42), false);
    let before = a.range;
    assert!(take_stack(&mut a, &mut t, &mut f, 3).is_none());
    assert_eq!(a.range, before);
    assert!(t.entries().is_empty());
    assert_eq!(f.handed_out, 0);
    let (s, _) = take_stack(&mut a, &mut t, &mut f, 1).unwrap();
    assert_eq!(s.bottom(), 41 * PAGE_SIZE);
}

#[test]
fn exhausted_range_refuses_any_stack() {
    let (mut t, mut f) = (PageTable::new(), frames());
    let mut a = StackAllocator::new(pages(40, 40), false);
    assert!(take_stack(&mut a, &mut t, &mut f, 1).is_none());
    let mut empty = StackAllocator::new(pages(5, 4), false);
    assert!(take_stack(&mut empty, &mut t, &mut f, 1).is_none());
    assert_eq!(empty.range.remaining(), 0);
}

#[test]
fn user_stack_is_user_accessible_and_writable() {
    let (mut t, mut f) = (PageTable::new(), frames());
    let mut a = StackAllocator::new(pages(0, 9), true);
    let (_, v) = take_stack(&mut a, &mut t, &mut f, 2).unwrap();
    assert_eq!(v.desc(), "User Stack");
    assert!(v.flags().contains(EntryFlags::user_accessible()));
    assert!(v.flags().contains(EntryFlags::writable()));
    assert!(t.entries().iter().all(|m| m.flags.bits == v.flags().bits));
}

#[test]
fn kernel_stack_is_writable_only() {
    let (mut t, mut f) = (PageTable::new(), frames());
    let mut a = StackAllocator::new(pages(0, 9), false);
    let (_, v) = take_stack(&mut a, &mut t, &mut f, 2).unwrap();
    assert_eq!(v.desc(), "Kernel Stack");
    assert!(!v.flags().contains(EntryFlags::user_accessible()));
    assert!(v.flags().contains(EntryFlags::writable()));
    assert_eq!(v.flags(), EntryFlags::writable());
    assert!(t.entries().iter().all(|m| m.flags.bits == EntryFlags::writable().bits));
}

#[test]
fn four_pages_fit_one_two_page_stack() {
    let (mut t, mut f) = (PageTable::new(), frames());
    let mut a = StackAllocator::new(pages(8, 11), false);
    let (s, v) = take_stack(&mut a, &mut t, &mut f, 2).unwrap();
    assert_eq!(s.bottom(), 9 * PAGE_SIZE);
    assert_eq!(s.top_unusable(), 11 * PAGE_SIZE);
    assert_eq!(v.desc(), "Kernel Stack");
    assert_eq!(a.range.remaining(), 1);
    let mapped: Vec<usize> = t.entries().iter().map(|m| m.page.number).collect();
    assert_eq!(mapped, vec![9, 10]);
    assert!(take_stack(&mut a, &mut t, &mut f, 1).is_none());
    assert_eq!(a.range.remaining(), 1);
    assert_eq!(t.entries().len(), 2);
    assert_eq!(f.handed_out, 2);
}

#[test]
fn zero_pages_touches_no_frame() {
    let (mut t, mut f) = (PageTable::new(), frames());
    let mut a = StackAllocator::new(pages(20, 29), true);
    assert!(take_stack(&mut a, &mut t, &mut f, 0).is_none());
    assert_eq!(f.handed_out, 0);
    assert_eq!(f.next, 100);
    assert!(t.entries().is_empty());
}

#[test]
fn each_stack_page_gets_its_own_frame() {
    let (mut t, mut f) = (PageTable::new(), frames());
    let mut a = StackAllocator::new(pages(30, 39), false);
    take_stack(&mut a, &mut t, &mut f, 3).unwrap();
    let frames: Vec<Option<usize>> = t.entries().iter().map(|m| m.frame.map(|x| x.number)).collect();
    assert_eq!(frames, vec![Some(100), Some(101), Some(102)]);
}

struct NoFrames;

impl FrameAllocator for NoFrames {
    fn allocate_frame(&mut self) -> Option<Frame> {
        None
    }

    fn deallocate_frame(&mut self, _frame: Frame) {}
}

#[test]
fn pages_are_recorded_without_frame_when_none_is_left() {
    let mut t = PageTable::new();
    let mut a = StackAllocator::new(pages(30, 39), false);
    let (s, _) = a.alloc_stack(&mut t, &mut NoFrames, 2).unwrap();
    assert_eq!(s.bottom(), 31 * PAGE_SIZE);
    assert_eq!(t.entries().len(), 2);
    assert!(t.entries().iter().all(|m| m.frame.is_none()));
}
