//! The candidates as a list that programs can read and draw themselves.

use vstd::prelude::*;

use crate::candwin::UiSnapshot;
use crate::text;
use crate::text::copy_list;

verus! {

/// Where the list stands with the system.
#[derive(Clone, Copy, Debug, PartialEq, Eq, Structural)]
pub struct CandidateElementHost {
    /// Whether the system takes such lists.
    pub mgr: bool,
    /// Whether there is a list, and its number.
    pub elem: Option<u32>,
    /// Whether the system leaves it to the input method to draw the candidates.
    pub bshow: bool,
}

/// What is done about the list.
#[derive(Clone, Copy, Debug, PartialEq, Eq, Structural)]
pub enum ElementCall {
    Nothing,
    /// Fill a list and announce it.
    Begin,
    /// Fill the list of this number anew and say so.
    Update(u32),
    /// Take the list of this number back.
    End(u32),
}

impl CandidateElementHost {
    /// No list, and no system that takes one.
    pub fn new() -> (r: CandidateElementHost)
        ensures
            r == (CandidateElementHost { mgr: false, elem: None, bshow: true }),
    {
        CandidateElementHost { mgr: false, elem: None, bshow: true }
    }

    /// Notes whether the system takes lists.
    pub fn attach(&mut self, found: bool)
        ensures
            *final(self) == (CandidateElementHost { mgr: found, ..*old(self) }),
    {
        self.mgr = found;
    }

    /// Brings the list up to date: there is one while there are candidates.
    pub fn sync(&mut self, snap: &UiSnapshot) -> (r: ElementCall)
        ensures
            ({
                let blank = snap@.candidates.len() == 0;
                &&& r == (if !old(self).mgr {
                    ElementCall::Nothing
                } else {
                    match old(self).elem {
                        Some(id) => if blank {
                            ElementCall::End(id)
                        } else {
                            ElementCall::Update(id)
                        },
                        None => if blank {
                            ElementCall::Nothing
                        } else {
                            ElementCall::Begin
                        },
                    }
                })
                &&& *final(self) == (CandidateElementHost {
                    elem: if old(self).mgr && blank {
                        None
                    } else {
                        old(self).elem
                    },
                    ..*old(self)
                })
            }),
    {
        if !self.mgr {
            return ElementCall::Nothing;
        }
        if snap.candidates.len() == 0 {
            return self.end();
        }
        match self.elem {
            None => ElementCall::Begin,
            Some(id) => ElementCall::Update(id),
        }
    }

    /// Takes what came of announcing a list: its number, and whether the input method draws.
    pub fn begun(&mut self, result: Option<(u32, bool)>)
        ensures
            match result {
                Some(x) => *final(self) == (CandidateElementHost {
                    elem: Some(x.0),
                    bshow: x.1,
                    ..*old(self)
                }),
                None => *final(self) == *old(self),
            },
    {
        if let Some((id, bshow)) = result {
            self.elem = Some(id);
            self.bshow = bshow;
        }
    }

    /// Takes the list back, if there is one.
    pub fn end(&mut self) -> (r: ElementCall)
        ensures
            *final(self) == (CandidateElementHost { elem: None, ..*old(self) }),
            r == (match old(self).elem {
                Some(id) => if old(self).mgr {
                    ElementCall::End(id)
                } else {
                    ElementCall::Nothing
                },
                None => ElementCall::Nothing,
            }),
    {
        match self.elem {
            None => ElementCall::Nothing,
            Some(id) => {
                self.elem = None;
                if self.mgr {
                    ElementCall::End(id)
                } else {
                    ElementCall::Nothing
                }
            },
        }
    }

    /// Takes the list back and forgets the system.
    pub fn clear(&mut self) -> (r: ElementCall)
        ensures
            *final(self) == (CandidateElementHost { elem: None, mgr: false, ..*old(self) }),
            r == (match old(self).elem {
                Some(id) => if old(self).mgr {
                    ElementCall::End(id)
                } else {
                    ElementCall::Nothing
                },
                None => ElementCall::Nothing,
            }),
    {
        let call: ElementCall = self.end();
        self.mgr = false;
        call
    }
}

/// The list.
#[derive(Debug)]
pub struct CandidateElement {
    /// The candidates of all pages.
    pub candidates: Vec<String>,
    /// The marked candidate, counted over all pages.
    pub selected: u32,
    pub page: u32,
    pub page_count: u32,
    pub page_size: u32,
    pub shown: bool,
}

/// How many pages of a size a number of candidates takes; never none.
pub open spec fn pages(total: nat, size: nat) -> nat
    recommends
        size > 0,
{
    if total == 0 {
        1
    } else {
        ((total - 1) / (size as int) + 1) as nat
    }
}

/// The size of a page, which is never 0.
pub open spec fn size_of_page(size: usize) -> usize {
    if size == 0 {
        1
    } else {
        size
    }
}

/// The mark, counted over all pages, of a row of a page; a row past the page stands for its
/// last.
pub open spec fn mark_of(page: nat, size: nat, row: nat) -> int {
    page * size + if row < size {
        row as int
    } else {
        size - 1
    }
}

/// Whether the numbers of a page fit the interface.
pub open spec fn fits(snap: UiSnapshot) -> bool {
    &&& snap.all_candidates@.len() <= u32::MAX
    &&& (snap.page + 1) * size_of_page(snap.page_size) <= u32::MAX
}

/// The number of candidates changed.
pub const COUNT_CHANGED: u32 = 2;

/// The mark moved.
pub const MARK_CHANGED: u32 = 4;

/// The candidates changed.
pub const TEXTS_CHANGED: u32 = 8;

/// The beginnings of the pages changed.
pub const PAGES_CHANGED: u32 = 16;

/// Another page shows.
pub const PAGE_CHANGED: u32 = 32;

impl CandidateElement {
    /// Whether the beginnings of all pages fit the interface.
    pub open spec fn wf(self) -> bool {
        &&& self.page_size > 0
        &&& self.page_count > 0
        &&& self.page_count == pages(self.candidates@.len(), self.page_size as nat)
        &&& self.candidates@.len() <= u32::MAX
    }

    /// An empty list.
    pub fn new() -> (r: CandidateElement)
        ensures
            r.wf(),
            r.candidates@.len() == 0,
            r.selected == 0,
            r.page == 0,
            r.page_count == 1,
            r.page_size == 5,
            r.shown,
    {
        CandidateElement {
            candidates: Vec::new(),
            selected: 0,
            page: 0,
            page_count: 1,
            page_size: 5,
            shown: true,
        }
    }

    /// The system shows the list, or hides it.
    pub fn show(&mut self, shown: bool)
        ensures
            *final(self) == (CandidateElement { shown, ..*old(self) }),
    {
        self.shown = shown;
    }

    /// Whether the list shows.
    pub fn is_shown(&self) -> (r: bool)
        ensures
            r == self.shown,
    {
        self.shown
    }

    /// What is said to have changed since the list was last read: the count, the mark, the
    /// texts, the beginnings of the pages and the page that shows.
    pub fn get_updated_flags(&self) -> (r: u32)
        ensures
            r == COUNT_CHANGED + MARK_CHANGED + TEXTS_CHANGED + PAGES_CHANGED + PAGE_CHANGED,
    {
        COUNT_CHANGED + MARK_CHANGED + TEXTS_CHANGED + PAGES_CHANGED + PAGE_CHANGED
    }

    /// Fills the list. The mark is counted over all pages, as the programs that draw the
    /// candidates expect.
    pub fn update_data(&mut self, snap: &UiSnapshot)
        requires
            fits(*snap),
        ensures
            final(self).wf(),
            text::views(final(self).candidates@) == snap@.all_candidates,
            final(self).page_size == size_of_page(snap.page_size),
            final(self).page == snap.page,
            final(self).selected == mark_of(
                snap.page as nat,
                size_of_page(snap.page_size) as nat,
                snap.selected as nat,
            ),
            final(self).page_count == pages(
                snap@.all_candidates.len(),
                size_of_page(snap.page_size) as nat,
            ),
            final(self).shown == old(self).shown,
    {
        let size: usize = if snap.page_size == 0 {
            1
        } else {
            snap.page_size
        };
        let page: usize = snap.page;
        assert((page + 1) * size == page * size + size) by (nonlinear_arith);
        assert(page <= page * size && size <= (page + 1) * size) by (nonlinear_arith)
            requires
                size >= 1,
                page >= 0,
        ;
        let row: usize = if snap.selected < size {
            snap.selected
        } else {
            size - 1
        };
        self.candidates = copy_list(&snap.all_candidates);
        assert(text::views(self.candidates@).len() == self.candidates@.len());
        assert(snap@.all_candidates.len() == snap.all_candidates@.len());
        let total: usize = self.candidates.len();
        self.selected = (page * size + row) as u32;
        self.page = page as u32;
        self.page_size = size as u32;
        self.page_count = if total == 0 {
            1
        } else {
            proof {
                let q = (total - 1) / (size as int);
                assert(0 <= q <= total - 1) by (nonlinear_arith)
                    requires
                        q == (total - 1) / (size as int),
                        size >= 1,
                        total >= 1,
                ;
            }
            ((total - 1) / size + 1) as u32
        };
    }

    /// How many candidates there are.
    pub fn get_count(&self) -> (r: u32)
        requires
            self.wf(),
        ensures
            r == self.candidates@.len(),
    {
        self.candidates.len() as u32
    }

    /// The marked candidate, counted over all pages.
    pub fn get_selection(&self) -> (r: u32)
        ensures
            r == self.selected,
    {
        self.selected
    }

    /// The page.
    pub fn get_current_page(&self) -> (r: u32)
        ensures
            r == self.page,
    {
        self.page
    }

    /// A candidate, counted over all pages; none past the last.
    pub fn get_string(&self, index: u32) -> (r: Option<String>)
        ensures
            (index as nat) < self.candidates@.len() ==> (r matches Some(t) && t@
                == self.candidates@[index as int]@),
            index as nat >= self.candidates@.len() ==> r is None,
    {
        let i: usize = index as usize;
        if i >= self.candidates.len() {
            return None;
        }
        Some(self.candidates[i].clone())
    }

    /// How many pages there are, and where each begins, as many as there is room for.
    pub fn get_page_index(&self, room: u32) -> (r: (u32, Vec<u32>))
        requires
            self.wf(),
        ensures
            r.0 == self.page_count,
            r.1@.len() == if self.page_count < room {
                self.page_count
            } else {
                room
            },
            forall|i: int| 0 <= i < r.1@.len() ==> #[trigger] r.1@[i] == i * self.page_size,
    {
        let n: u32 = if self.page_count < room {
            self.page_count
        } else {
            room
        };
        let mut starts: Vec<u32> = Vec::new();
        let mut i: u32 = 0;
        while i < n
            invariant
                i <= n <= self.page_count,
                self.wf(),
                starts@.len() == i,
                forall|k: int| 0 <= k < i ==> #[trigger] starts@[k] == k * self.page_size,
            decreases n - i,
        {
            proof {
                law_pages_begin_inside(
                    self.candidates@.len(),
                    self.page_size as nat,
                    i as nat,
                );
            }
            starts.push(i * self.page_size);
            i = i + 1;
        }
        (self.page_count, starts)
    }
}

/// Every page but the first begins at a candidate.
pub proof fn law_pages_begin_inside(total: nat, size: nat, page: nat)
    requires
        size > 0,
        page < pages(total, size),
    ensures
        page == 0 || page * size < total,
        page * size <= total,
{
    if total == 0 {
        assert(page * size == 0) by (nonlinear_arith)
            requires
                page == 0,
        ;
    } else {
        let q = (total - 1) / (size as int);
        assert(page * size <= total - 1) by (nonlinear_arith)
            requires
                q == (total - 1) / (size as int),
                page <= q,
                size > 0,
                total >= 1,
        ;
    }
}

/// The pages hold all candidates, and one page less would not.
pub proof fn law_pages_hold_all(total: nat, size: nat)
    requires
        size > 0,
    ensures
        total <= pages(total, size) * size,
        total > 0 ==> (pages(total, size) - 1) * size < total,
{
    if total > 0 {
        let q = (total - 1) / (size as int);
        assert(q * size <= total - 1 && total <= (q + 1) * size) by (nonlinear_arith)
            requires
                q == (total - 1) / (size as int),
                size > 0,
                total >= 1,
        ;
    }
}

/// The mark lies on the page that is shown: programs drop a list of which this is not so.
pub proof fn law_mark_on_page(page: nat, size: nat, row: nat)
    requires
        size > 0,
    ensures
        page * size <= mark_of(page, size, row) < (page + 1) * size,
{
    assert((page + 1) * size == page * size + size) by (nonlinear_arith);
}

/// A page holds as many as is set, and one where nothing is; the marked candidate is the row on
/// the page, and the page's last where there is no such row.
pub proof fn law_marked_row(size: usize, page: nat, row: nat)
    ensures
        size_of_page(size) >= 1,
        size >= 1 ==> size_of_page(size) == size,
        size == 0 ==> size_of_page(size) == 1,
        row < size ==> mark_of(page, size as nat, row) == page * (size as nat) + row,
        size >= 1 && row >= size ==> mark_of(page, size as nat, row) == page * (size as nat) + size
            - 1,
{
}

/// There is always a page, even where there is no candidate, and with one more candidate there is
/// another page exactly where the last one was full.
pub proof fn law_one_more_page(total: nat, size: nat)
    requires
        size > 0,
    ensures
        pages(0, size) == 1,
        pages(total, size) >= 1,
        pages(total + 1, size) == if total > 0 && total % size == 0 {
            pages(total, size) + 1
        } else {
            pages(total, size)
        },
{
    let n = size as int;
    let t = total as int;
    assert(t >= 1 ==> (if t % n == 0 {
        t / n == (t - 1) / n + 1
    } else {
        t / n == (t - 1) / n
    })) by (nonlinear_arith)
        requires
            n > 0,
    ;
    assert((total as int - 0) / n >= 0) by (nonlinear_arith)
        requires
            n > 0,
            total >= 0,
    ;
    if total > 0 {
        assert((t - 1) / n >= 0) by (nonlinear_arith)
            requires
                n > 0,
                t >= 1,
        ;
    } else {
        assert(0int / n == 0) by (nonlinear_arith)
            requires
                n > 0,
        ;
    }
}

} // verus!
