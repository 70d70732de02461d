//! Paging through the items of a container.
//!
//! The container holds the paging controls as its first child and the
//! items after them, so the items are counted from 1. A page shows
//! `page_size` items, starting with the one at `offset`.

use vstd::prelude::*;

verus! {

/// What paging does to one child of the container.
#[derive(Debug, Clone, Copy, PartialEq, Eq, Structural)]
pub enum PageChange {
    /// The child is left as it is: it holds the paging controls.
    Keep,
    /// The child is on the page and is shown.
    Show,
    /// The child is off the page and is hidden.
    Hide,
}

/// The state of the paging controls.
#[derive(Debug, Clone, Copy, PartialEq, Eq)]
pub struct Pagination {
    offset: usize,
    page_size: usize,
    sensitive_back: bool,
    sensitive_fwd: bool,
}

/// The mathematical value of a [`Pagination`].
pub struct PaginationView {
    /// The index of the first item on the page.
    pub offset: nat,
    /// The number of items on a page.
    pub page_size: nat,
    /// Whether the button that pages back can be clicked.
    pub sensitive_back: bool,
    /// Whether the button that pages forward can be clicked.
    pub sensitive_fwd: bool,
}

impl View for Pagination {
    type V = PaginationView;

    closed spec fn view(&self) -> PaginationView {
        PaginationView {
            offset: self.offset as nat,
            page_size: self.page_size as nat,
            sensitive_back: self.sensitive_back,
            sensitive_fwd: self.sensitive_fwd,
        }
    }
}

/// What paging does to the child at `index` when the page starts at
/// `offset`.
pub open spec fn page_change(index: nat, offset: nat, page_size: nat) -> PageChange {
    if index == 0 {
        PageChange::Keep
    } else if offset <= index < offset + page_size {
        PageChange::Show
    } else {
        PageChange::Hide
    }
}

/// Where the next page starts in a container of `child_count` children:
/// a page further on, but not beyond the last child.
pub open spec fn offset_forward(offset: nat, page_size: nat, child_count: nat) -> nat
    recommends
        child_count >= 1,
{
    if child_count - 1 <= offset + page_size {
        (child_count - 1) as nat
    } else {
        offset + page_size
    }
}

/// Where the page before starts: a page back, but not before the first
/// item.
pub open spec fn offset_back(offset: nat, page_size: nat) -> nat {
    if page_size < offset {
        (offset - page_size) as nat
    } else {
        1
    }
}

/// The state after a click on the button that pages forward, in a
/// container of `child_count` children. The button goes insensitive when
/// the new page reaches the last child; the button that pages back
/// becomes sensitive.
pub open spec fn paged_forward(before: PaginationView, child_count: nat) -> PaginationView
    recommends
        child_count >= 1,
{
    let offset = offset_forward(before.offset, before.page_size, child_count);
    PaginationView {
        offset,
        page_size: before.page_size,
        sensitive_back: true,
        sensitive_fwd: before.sensitive_fwd && offset + before.page_size < child_count,
    }
}

/// The state after a click on the button that pages back. The button goes
/// insensitive when the new page starts at the first item or less than a
/// page after it; the button that pages forward becomes sensitive.
pub open spec fn paged_back(before: PaginationView) -> PaginationView {
    let offset = offset_back(before.offset, before.page_size);
    PaginationView {
        offset,
        page_size: before.page_size,
        sensitive_back: before.sensitive_back && offset != 1 && offset - before.page_size >= 1,
        sensitive_fwd: true,
    }
}

impl Pagination {
    /// Paging controls for pages of `page_size` items: on the first page,
    /// with both buttons insensitive.
    pub fn new(page_size: usize) -> (pagination: Self)
        ensures
            pagination@ == (PaginationView {
                offset: 1,
                page_size: page_size as nat,
                sensitive_back: false,
                sensitive_fwd: false,
            }),
    {
        Pagination { offset: 1, page_size, sensitive_back: false, sensitive_fwd: false }
    }

    /// Says what to do with each child of a container of `child_count`
    /// children so that it shows the page at `offset`: the first child is
    /// left alone, the `page_size` children from `offset` on are shown and
    /// the others hidden.
    pub fn update_page(child_count: usize, offset: usize, page_size: usize) -> (changes: Vec<
        PageChange,
    >)
        ensures
            changes.len() == child_count,
            forall|i: int|
                0 <= i < child_count ==> #[trigger] changes[i] == page_change(
                    i as nat,
                    offset as nat,
                    page_size as nat,
                ),
    {
        let mut changes: Vec<PageChange> = Vec::new();
        let mut i: usize = 0;
        while i < child_count
            invariant
                i <= child_count,
                changes.len() == i,
                forall|j: int|
                    0 <= j < i ==> #[trigger] changes[j] == page_change(
                        j as nat,
                        offset as nat,
                        page_size as nat,
                    ),
            decreases child_count - i,
        {
            if i == 0 {
                // the paging controls themselves
                changes.push(PageChange::Keep);
            } else if i >= offset && i - offset < page_size {
                changes.push(PageChange::Show);
            } else {
                changes.push(PageChange::Hide);
            }
            i += 1;
        }
        changes
    }

    /// Makes the button that pages forward sensitive or insensitive.
    pub fn set_sensitive_fwd(&mut self, sensitive: bool)
        ensures
            final(self)@ == (PaginationView { sensitive_fwd: sensitive, ..old(self)@ }),
    {
        self.sensitive_fwd = sensitive;
    }

    /// Whether the button that pages forward can be clicked.
    pub fn sensitive_fwd(&self) -> (sensitive: bool)
        ensures
            sensitive == self@.sensitive_fwd,
    {
        self.sensitive_fwd
    }

    /// Whether the button that pages back can be clicked.
    pub fn sensitive_back(&self) -> (sensitive: bool)
        ensures
            sensitive == self@.sensitive_back,
    {
        self.sensitive_back
    }

    /// The index of the first item on the page.
    pub fn offset(&self) -> (offset: usize)
        ensures
            offset == self@.offset,
    {
        self.offset
    }

    /// The number of items on a page.
    pub fn page_size(&self) -> (page_size: usize)
        ensures
            page_size == self@.page_size,
    {
        self.page_size
    }

    /// Pages forward, as a click on the button that does so: in a
    /// container of `child_count` children, the controls among them.
    pub fn forward(&mut self, child_count: usize)
        requires
            child_count >= 1,
        ensures
            final(self)@ == paged_forward(old(self)@, child_count as nat),
    {
        let last: usize = child_count - 1;
        self.offset = match self.offset.checked_add(self.page_size) {
            Some(next) => if last <= next {
                last
            } else {
                next
            },
            None => last,
        };
        if self.page_size >= child_count - self.offset {
            self.sensitive_fwd = false;
        }
        self.sensitive_back = true;
    }

    /// Pages back, as a click on the button that does so.
    pub fn back(&mut self)
        ensures
            final(self)@ == paged_back(old(self)@),
    {
        if self.page_size < self.offset {
            self.offset -= self.page_size;
        } else {
            self.offset = 1
        };
        if self.offset == 1 || self.offset <= self.page_size {
            self.sensitive_back = false;
        }
        self.sensitive_fwd = true;
    }
}

} // verus!
