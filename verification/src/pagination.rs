//! Slicing a flat list of items into pages, and rendering a compact list of
//! page links ("1 … 4 5 [6] 7 8 … 20") with gap markers.
use vstd::prelude::*;

verus! {

/// Query parameter for pagination.
#[derive(Clone, Debug, PartialEq, Eq, Structural)]
pub struct QueryPage {
    pub page: usize,
}

/// One page of a result set: its zero-based index and the zero-based item
/// index of its first element.
#[derive(Clone, Copy, Debug, PartialEq, Eq, Structural)]
pub struct Page {
    pub offset: usize,
    pub start: usize,
}

/// A whole paginated result set: a total item count divided into pages of a
/// fixed size. There is always at least one page, even with no items.
#[derive(Clone, Debug)]
pub struct Pages {
    total_item_count: usize,
    page_size: usize,
}

impl Pages {
    /// The page size must be positive.
    pub closed spec fn wf(self) -> bool {
        self.page_size >= 1
    }

    pub closed spec fn spec_total(self) -> int {
        self.total_item_count as int
    }

    pub closed spec fn spec_limit(self) -> int {
        self.page_size as int
    }

    /// `ceil(total_item_count / page_size)`, but at least 1.
    pub closed spec fn spec_page_count(self) -> int
        recommends
            self.wf(),
    {
        if self.total_item_count == 0 {
            1
        } else {
            (self.total_item_count - 1) / (self.page_size as int) + 1
        }
    }

    /// The page at a given index.
    pub closed spec fn spec_page_at(self, offset: int) -> Page {
        Page { offset: offset as usize, start: (offset * self.spec_limit()) as usize }
    }

    /// What `with_offset` returns: the requested page, clamped into
    /// `[0, page_count - 1]`.
    pub closed spec fn spec_with_offset(self, requested: int) -> Page
        recommends
            self.wf(),
    {
        if requested < self.spec_page_count() {
            self.spec_page_at(requested)
        } else {
            self.spec_page_at(self.spec_page_count() - 1)
        }
    }

    pub fn new(total_item_count: usize, page_size: usize) -> (r: Pages)
        requires
            page_size >= 1,
        ensures
            r.wf(),
            r.spec_total() == total_item_count,
            r.spec_limit() == page_size,
    {
        Pages { total_item_count, page_size }
    }

    /// The number of pages; at least 1.
    pub fn page_count(&self) -> (r: usize)
        requires
            self.wf(),
        ensures
            r == self.spec_page_count(),
            r >= 1,
    {
        if self.total_item_count == 0 {
            1
        } else {
            (self.total_item_count - 1) / self.page_size + 1
        }
    }

    /// The page size.
    pub fn limit(&self) -> (r: usize)
        ensures
            r == self.spec_limit(),
    {
        self.page_size
    }

    /// The page at `requested_offset`, clamped into the valid range
    /// `[0, page_count - 1]`: a request past the end falls back to the last
    /// page instead of erroring.
    pub fn with_offset(&self, requested_offset: usize) -> (r: Page)
        requires
            self.wf(),
        ensures
            r == self.spec_with_offset(requested_offset as int),
            r.offset == if requested_offset < self.spec_page_count() {
                requested_offset as int
            } else {
                self.spec_page_count() - 1
            },
            r.start == r.offset * self.spec_limit(),
            r == self.spec_page_at(r.offset as int),
            r.offset < self.spec_page_count(),
    {
        proof {
            self.lemma_page_start_fits(self.spec_page_count() - 1);
        }
        let page_count = self.page_count();
        let offset = if requested_offset < page_count {
            requested_offset
        } else {
            page_count - 1
        };
        proof {
            self.lemma_page_start_fits(offset as int);
        }
        Page { offset, start: offset * self.page_size }
    }

    /// The page-count formula, stated over the public atoms: one page for an
    /// empty result set, else `ceil(total / page_size)`.
    pub proof fn lemma_page_count_formula(self)
        requires
            self.wf(),
        ensures
            self.spec_page_count() == if self.spec_total() == 0 {
                1int
            } else {
                (self.spec_total() - 1) / self.spec_limit() + 1
            },
            1 <= self.spec_page_count(),
    {
    }

    /// The fields of the page at a valid index: the index itself, and a start
    /// of `index * page_size`.
    pub proof fn lemma_page_at_fields(self, offset: int)
        requires
            self.wf(),
            0 <= offset < self.spec_page_count(),
        ensures
            self.spec_page_at(offset).offset == offset,
            self.spec_page_at(offset).start == offset * self.spec_limit(),
    {
        let t = self.spec_total();
        let ps = self.spec_limit();
        if t != 0 {
            vstd::arithmetic::div_mod::lemma_div_nonincreasing(t - 1, ps);
        }
        self.lemma_page_start_fits(offset);
        vstd::arithmetic::mul::lemma_mul_nonnegative(offset, ps);
    }

    /// What `with_offset` yields, stated over the public atoms: the page at
    /// the requested index, clamped to the last valid page.
    pub proof fn lemma_with_offset_is_page_at(self, requested: int)
        requires
            self.wf(),
        ensures
            self.spec_with_offset(requested) == if requested < self.spec_page_count() {
                self.spec_page_at(requested)
            } else {
                self.spec_page_at(self.spec_page_count() - 1)
            },
    {
    }

    /// Clamping is idempotent: every request at or past the page count yields
    /// the same page as a request for the last valid page.
    pub proof fn lemma_with_offset_clamps(self, requested: int)
        requires
            self.wf(),
            requested >= self.spec_page_count(),
        ensures
            self.spec_with_offset(requested) == self.spec_with_offset(self.spec_page_count() - 1),
    {
    }

    /// The first item index of any valid page fits in `usize`.
    proof fn lemma_page_start_fits(self, offset: int)
        requires
            self.wf(),
            0 <= offset < self.spec_page_count(),
        ensures
            offset * self.spec_limit() <= self.spec_total(),
    {
        let ps = self.spec_limit();
        let t = self.spec_total();
        if t == 0 {
            assert(offset == 0);
        } else {
            assert(offset <= (t - 1) / ps);
            vstd::arithmetic::mul::lemma_mul_inequality(offset, (t - 1) / ps, ps);
            vstd::arithmetic::div_mod::lemma_fundamental_div_mod(t - 1, ps);
            vstd::arithmetic::div_mod::lemma_mod_bound(t - 1, ps);
            assert(((t - 1) / ps) * ps <= t - 1);
        }
    }
}

/// One entry of a rendered page-link list: a clickable sibling page, the
/// active page itself, or an ellipsis standing in for an elided run of pages.
#[derive(Clone, Copy, Debug, PartialEq, Eq, Structural)]
pub enum PageOrGap {
    Page(Page),
    CurrentPage(Page),
    Gap,
}

/// The page index a link-list entry carries, or `None` for an ellipsis.
pub open spec fn spec_link_offset(link: PageOrGap) -> Option<int> {
    match link {
        PageOrGap::Page(p) => Some(p.offset as int),
        PageOrGap::CurrentPage(p) => Some(p.offset as int),
        PageOrGap::Gap => None,
    }
}

/// Page entries never repeat or go backwards: of two entries in order, both
/// carrying a page index, the later carries the larger.
pub open spec fn spec_links_ordered(links: Seq<PageOrGap>, i: int, j: int) -> bool {
    match (spec_link_offset(links[i]), spec_link_offset(links[j])) {
        (Some(a), Some(b)) => a < b,
        _ => true,
    }
}

/// An ellipsis always stands between two page entries at least two indices
/// apart: it elides at least one real page, and is never first or last.
pub open spec fn spec_gap_elides(links: Seq<PageOrGap>, k: int) -> bool {
    links[k] is Gap ==> 0 < k < links.len() - 1 && match (
        spec_link_offset(links[k - 1]),
        spec_link_offset(links[k + 1]),
    ) {
        (Some(a), Some(b)) => a + 2 <= b,
        _ => false,
    }
}

/// Page entries that touch carry consecutive indices: nothing is elided
/// without an ellipsis.
pub open spec fn spec_adjacent_consecutive(links: Seq<PageOrGap>, k: int) -> bool {
    match (spec_link_offset(links[k]), spec_link_offset(links[k + 1])) {
        (Some(a), Some(b)) => b == a + 1,
        _ => true,
    }
}

/// Everything needed to render a pagination bar: the result set, the active
/// page, and how many sibling pages to show on each side of it.
pub struct PaginationState {
    pub pages: Pages,
    pub current_page: Page,
    /// The number of pages to include either side of the current page.
    pub window_size: usize,
}

impl PaginationState {
    /// The current page was produced by `with_offset`, and the window
    /// arithmetic stays within `usize`.
    pub open spec fn wf(self) -> bool {
        &&& self.pages.wf()
        &&& self.current_page.offset < self.pages.spec_page_count()
        &&& self.current_page == self.pages.spec_page_at(self.current_page.offset as int)
        &&& self.current_page.offset + self.window_size + 2 <= usize::MAX
    }

    /// Entries before the window: the first page, plus an ellipsis when more
    /// than one page is elided. A "gap" of exactly one page is never shown as
    /// an ellipsis, since the page itself takes no more space.
    pub open spec fn spec_head(self) -> Seq<PageOrGap> {
        let c = self.current_page.offset as int;
        let w = self.window_size as int;
        if c > w {
            if c > w + 1 {
                seq![PageOrGap::Page(self.pages.spec_page_at(0)), PageOrGap::Gap]
            } else {
                seq![PageOrGap::Page(self.pages.spec_page_at(0))]
            }
        } else {
            seq![]
        }
    }

    /// The window's pages before the current one: offsets
    /// `[max(c - w, 0), c)`.
    pub open spec fn spec_before(self) -> Seq<PageOrGap> {
        let c = self.current_page.offset as int;
        let w = self.window_size as int;
        let lo = if c >= w {
            c - w
        } else {
            0
        };
        Seq::new((c - lo) as nat, |i: int| PageOrGap::Page(self.pages.spec_page_at(lo + i)))
    }

    /// The window's pages after the current one: offsets
    /// `(c, min(c + w + 1, page_count))`.
    pub open spec fn spec_after(self) -> Seq<PageOrGap> {
        let c = self.current_page.offset as int;
        let w = self.window_size as int;
        let pc = self.pages.spec_page_count();
        let hi = if c + w + 1 <= pc {
            c + w + 1
        } else {
            pc
        };
        let len = if hi >= c + 1 {
            hi - c - 1
        } else {
            0
        };
        Seq::new(len as nat, |i: int| PageOrGap::Page(self.pages.spec_page_at(c + 1 + i)))
    }

    /// Entries after the window: an ellipsis when more than one page is
    /// elided, then the last page.
    pub open spec fn spec_tail(self) -> Seq<PageOrGap> {
        let c = self.current_page.offset as int;
        let w = self.window_size as int;
        let pc = self.pages.spec_page_count();
        if c + w + 1 < pc {
            if c + w + 2 < pc {
                seq![PageOrGap::Gap, PageOrGap::Page(self.pages.spec_page_at(pc - 1))]
            } else {
                seq![PageOrGap::Page(self.pages.spec_page_at(pc - 1))]
            }
        } else {
            seq![]
        }
    }

    /// The whole link list: leading edge, window, current page, window,
    /// trailing edge.
    pub open spec fn spec_page_links(self) -> Seq<PageOrGap> {
        self.spec_head() + self.spec_before() + seq![PageOrGap::CurrentPage(self.current_page)]
            + self.spec_after() + self.spec_tail()
    }

    /// The page index carried by the link-list entry at position `k`, by the
    /// segment that position falls in.
    spec fn spec_offset_at(self, k: int) -> Option<int> {
        let c = self.current_page.offset as int;
        let w = self.window_size as int;
        let pc = self.pages.spec_page_count();
        let hl = self.spec_head().len() as int;
        let bl = self.spec_before().len() as int;
        let al = self.spec_after().len() as int;
        let lo = if c >= w {
            c - w
        } else {
            0
        };
        if k < hl {
            if k == 0 {
                Some(0int)
            } else {
                None
            }
        } else if k < hl + bl {
            Some(lo + (k - hl))
        } else if k == hl + bl {
            Some(c)
        } else if k < hl + bl + 1 + al {
            Some(c + (k - hl - bl))
        } else {
            if c + w + 2 < pc && k == hl + bl + 1 + al {
                None
            } else {
                Some(pc - 1)
            }
        }
    }

    /// Each entry's page index matches its segment, and the one current-page
    /// entry stands right after the head and leading window.
    proof fn lemma_offset_at(self, k: int)
        requires
            self.wf(),
            0 <= k < self.spec_page_links().len(),
        ensures
            spec_link_offset(self.spec_page_links()[k]) == self.spec_offset_at(k),
            self.spec_page_links()[k] is CurrentPage <==> k == self.spec_head().len()
                + self.spec_before().len(),
    {
        let c = self.current_page.offset as int;
        let w = self.window_size as int;
        let pc = self.pages.spec_page_count();
        let links = self.spec_page_links();
        let hl = self.spec_head().len() as int;
        let bl = self.spec_before().len() as int;
        let al = self.spec_after().len() as int;
        let lo = if c >= w {
            c - w
        } else {
            0
        };
        if k < hl {
            assert(links[k] == self.spec_head()[k]);
            self.pages.lemma_page_at_fields(0);
        } else if k < hl + bl {
            assert(links[k] == self.spec_before()[k - hl]);
            self.pages.lemma_page_at_fields(lo + (k - hl));
        } else if k == hl + bl {
            assert(links[k] == PageOrGap::CurrentPage(self.current_page));
        } else if k < hl + bl + 1 + al {
            assert(links[k] == self.spec_after()[k - hl - bl - 1]);
            self.pages.lemma_page_at_fields(c + (k - hl - bl));
        } else {
            assert(links[k] == self.spec_tail()[k - hl - bl - 1 - al]);
            self.pages.lemma_page_at_fields(pc - 1);
        }
    }

    /// The shape of the link list: it begins with the first page and ends
    /// with the last; exactly one entry is the current page; page indices
    /// never repeat or go backwards; touching page entries are consecutive;
    /// and every ellipsis elides at least one real page and never stands at
    /// either end.
    pub proof fn lemma_page_links_structure(self)
        requires
            self.wf(),
        ensures
            ({
                let links = self.spec_page_links();
                let pc = self.pages.spec_page_count();
                &&& 1 <= links.len()
                &&& spec_link_offset(links[0]) == Some(0int)
                &&& spec_link_offset(links[links.len() - 1]) == Some(pc - 1)
                &&& forall|k: int|
                    0 <= k < links.len() ==> ((#[trigger] links[k]) is CurrentPage <==> k
                        == self.spec_head().len() + self.spec_before().len())
                &&& forall|i: int, j: int|
                    0 <= i < j < links.len() ==> #[trigger] spec_links_ordered(links, i, j)
                &&& forall|k: int| 0 <= k < links.len() ==> #[trigger] spec_gap_elides(links, k)
                &&& forall|k: int|
                    0 <= k < links.len() - 1 ==> #[trigger] spec_adjacent_consecutive(links, k)
            }),
    {
        let links = self.spec_page_links();
        let pc = self.pages.spec_page_count();
        self.lemma_offset_at(0);
        self.lemma_offset_at(links.len() - 1);
        assert forall|k: int|
            0 <= k < links.len() implies ((#[trigger] links[k]) is CurrentPage <==> k
            == self.spec_head().len() + self.spec_before().len()) by {
            self.lemma_offset_at(k);
        }
        assert forall|i: int, j: int|
            0 <= i < j < links.len() implies #[trigger] spec_links_ordered(links, i, j) by {
            self.lemma_offset_at(i);
            self.lemma_offset_at(j);
        }
        assert forall|k: int| 0 <= k < links.len() implies #[trigger] spec_gap_elides(
            links,
            k,
        ) by {
            self.lemma_offset_at(k);
            if 0 < k < links.len() - 1 {
                self.lemma_offset_at(k - 1);
                self.lemma_offset_at(k + 1);
            }
        }
        assert forall|k: int|
            0 <= k < links.len() - 1 implies #[trigger] spec_adjacent_consecutive(links, k) by {
            self.lemma_offset_at(k);
            self.lemma_offset_at(k + 1);
        }
    }

    /// The link list stays compact: at most `2 * window_size + 1` window
    /// entries, plus two edge pages and two gap markers.
    pub proof fn lemma_page_links_bounded(self)
        requires
            self.wf(),
        ensures
            self.spec_page_links().len() <= 2 * self.window_size + 5,
    {
    }

    /// The windowed list of page links with gap markers, exactly
    /// `spec_page_links`.
    pub fn page_links(&self) -> (links: Vec<PageOrGap>)
        requires
            self.wf(),
        ensures
            links@ == self.spec_page_links(),
    {
        let mut links: Vec<PageOrGap> = Vec::new();
        let c = self.current_page.offset;
        let w = self.window_size;
        let pc = self.pages.page_count();

        if c > w {
            // There's a gap before the window.
            links.push(PageOrGap::Page(self.pages.with_offset(0)));
            // Only insert the gap marker if there is actually a gap of at
            // least one page.
            if c > w + 1 {
                links.push(PageOrGap::Gap);
            }
        }
        proof {
            assert(links@ =~= self.spec_head());
        }

        // Pages before the current page.
        let lo = if c >= w {
            c - w
        } else {
            0
        };
        let mut offset = lo;
        while offset < c
            invariant
                self.wf(),
                lo <= offset <= c,
                c == self.current_page.offset,
                lo == if c >= w {
                    c - w
                } else {
                    0int
                },
                w == self.window_size,
                links@ == self.spec_head() + self.spec_before().take(offset - lo),
            decreases c - offset,
        {
            links.push(PageOrGap::Page(self.pages.with_offset(offset)));
            proof {
                assert(self.spec_before().take(offset + 1 - lo) =~= self.spec_before().take(
                    offset - lo,
                ).push(PageOrGap::Page(self.pages.spec_page_at(offset as int))));
            }
            offset = offset + 1;
        }
        proof {
            assert(self.spec_before().take(c - lo) =~= self.spec_before());
        }

        // Current page.
        links.push(PageOrGap::CurrentPage(self.current_page));

        // Pages after the current page.
        let hi = if c + w + 1 <= pc {
            c + w + 1
        } else {
            pc
        };
        let mut offset = c + 1;
        while offset < hi
            invariant
                self.wf(),
                c == self.current_page.offset,
                w == self.window_size,
                pc == self.pages.spec_page_count(),
                hi == if c + w + 1 <= pc {
                    c + w + 1
                } else {
                    pc as int
                },
                c + 1 <= offset <= hi,
                links@ == self.spec_head() + self.spec_before() + seq![
                    PageOrGap::CurrentPage(self.current_page),
                ] + self.spec_after().take(offset - c - 1),
            decreases hi - offset,
        {
            links.push(PageOrGap::Page(self.pages.with_offset(offset)));
            proof {
                assert(self.spec_after().take(offset - c) =~= self.spec_after().take(
                    offset - c - 1,
                ).push(PageOrGap::Page(self.pages.spec_page_at(offset as int))));
            }
            offset = offset + 1;
        }
        proof {
            assert(self.spec_after().take(hi - c - 1) =~= self.spec_after());
        }

        if c + w + 1 < pc {
            // There's a gap after the window.
            // Only insert the gap marker if there is actually a gap of at
            // least one page.
            if c + w + 2 < pc {
                links.push(PageOrGap::Gap);
            }
            links.push(PageOrGap::Page(self.pages.with_offset(pc - 1)));
        }
        proof {
            assert(links@ =~= self.spec_page_links());
        }

        links
    }
}

} // verus!
