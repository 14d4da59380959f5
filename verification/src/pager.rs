//! Paging: the neighbor pages of a search or of the favorites.

use vstd::prelude::*;

use crate::config::Config;
use crate::favs::{FavsBackend, FavsPage};
use crate::grid::{pages_of, total_pages, PAGE_SIZE};
use crate::item::{fav_items, gif_items, items_of_favs, items_of_gifs, UrlItem};
use crate::providers::{PageCursor, SearchPage, Source};

verus! {

/// Direction of a page turn.
#[derive(Debug, Clone, Copy, PartialEq, Eq, Structural)]
pub enum PageDir {
    Next,
    Prev,
}

/// Outcome of a page-turn attempt.
#[derive(Debug)]
pub enum PageTurn {
    /// The neighbor page was fetched; the grid should be replaced by these.
    Page(Vec<UrlItem>),
    /// Already on the first page.
    AtFirst,
    /// No further results exist.
    AtLast,
}

/// A page to fetch.
#[derive(Debug)]
pub enum PageFetch {
    /// From the search providers.
    Search { source: Source, query: String, limit: usize, cursor: PageCursor },
    /// From the favorites.
    Favs { limit: usize, offset: usize },
}

/// How a page turn begins.
#[derive(Debug)]
pub enum TurnStart {
    /// Already on the first page.
    AtFirst,
    /// No further results exist.
    AtLast,
    /// The page has to be fetched.
    Fetch(PageFetch),
}

/// A page that was fetched.
#[derive(Debug)]
pub struct PageReply {
    pub items: Vec<UrlItem>,
    pub next: Option<PageCursor>,
    pub total: Option<usize>,
}

/// A page of search results as a page of the grid.
pub fn search_reply(page: SearchPage) -> (r: PageReply)
    ensures
        r.items@ == items_of_gifs(page.results@),
        r.next == page.next,
        r.total == page.total,
{
    PageReply { items: gif_items(page.results), next: page.next, total: page.total }
}

/// A page of favorites as a page of the grid.
pub fn favs_reply(page: FavsPage) -> (r: PageReply)
    ensures
        r.items@ == items_of_favs(page.items@),
        r.next is None,
        r.total == page.total,
{
    PageReply { items: fav_items(page.items), next: None, total: page.total }
}

/// Paging against a source: a turn replaces the whole grid with the previous or
/// next page of results instead of scrolling within a page.
#[derive(Debug)]
pub enum Pager {
    Search {
        cfg: Config,
        source: Source,
        query: String,
        /// Cursor used to fetch each visited page; the first is always `Start`.
        /// There is one more of them than the number of the current page.
        back: Vec<PageCursor>,
        /// Cursor for the page after the current one (`None` = exhausted).
        next: Option<PageCursor>,
        /// Total matching items, when the provider reports it.
        total: Option<usize>,
    },
    Favs {
        backend: FavsBackend,
        /// Total favorites, as the server or the local store reports it.
        total: Option<usize>,
    },
}

/// What a pager holds.
#[verifier::ext_equal]
pub enum PagerView {
    Search {
        cfg: Config,
        source: Source,
        query: Seq<char>,
        back: Seq<PageCursor>,
        next: Option<PageCursor>,
        total: Option<usize>,
    },
    Favs { backend: FavsBackend, total: Option<usize> },
}

impl View for Pager {
    type V = PagerView;

    open spec fn view(&self) -> PagerView {
        match *self {
            Pager::Search { cfg, source, query, back, next, total } => PagerView::Search {
                cfg,
                source,
                query: query@,
                back: back@,
                next,
                total,
            },
            Pager::Favs { backend, total } => PagerView::Favs { backend, total },
        }
    }
}

/// How many items there are, as far as a new report or an older one says.
pub open spec fn latest(new: Option<usize>, old_total: Option<usize>) -> Option<usize> {
    if new is Some {
        new
    } else {
        old_total
    }
}

fn newer(new: Option<usize>, old_total: Option<usize>) -> (r: Option<usize>)
    ensures
        r == latest(new, old_total),
{
    match new {
        Some(n) => Some(n),
        None => old_total,
    }
}

/// Whether a total rules out a page after `page`.
pub open spec fn past_total(total: Option<usize>, page: int) -> bool {
    total is Some && page + 1 >= pages_of(total->0 as int)
}

impl PagerView {
    /// Total items across all pages, when the source reports it.
    pub open spec fn total(self) -> Option<usize> {
        match self {
            PagerView::Search { total, .. } => total,
            PagerView::Favs { total, .. } => total,
        }
    }

    /// The cursors lead from the first page to the one with number `page`.
    pub open spec fn at_page(self, page: int) -> bool {
        match self {
            PagerView::Search { back, .. } => back.len() == page + 1 && back[0]
                == PageCursor::Start,
            PagerView::Favs { .. } => true,
        }
    }

    /// The number of the next page can be counted and, where pages are found by
    /// how many items come before them, so can that.
    pub open spec fn countable(self, page: int) -> bool {
        &&& page < usize::MAX
        &&& self is Favs ==> page < usize::MAX / PAGE_SIZE
    }

    /// Why a turn is refused without a fetch, if it is.
    pub open spec fn refuses(self, dir: PageDir, page: int) -> Option<PageDir> {
        match (self, dir) {
            (PagerView::Search { next, total, .. }, PageDir::Next) => if past_total(total, page)
                || next is None {
                Some(PageDir::Next)
            } else {
                None
            },
            (PagerView::Search { back, .. }, PageDir::Prev) => if back.len() < 2 {
                Some(PageDir::Prev)
            } else {
                None
            },
            (PagerView::Favs { total, .. }, PageDir::Next) => if past_total(total, page) {
                Some(PageDir::Next)
            } else {
                None
            },
            (PagerView::Favs { .. }, PageDir::Prev) => if page == 0 {
                Some(PageDir::Prev)
            } else {
                None
            },
        }
    }

    /// The cursor of the neighbor page.
    pub open spec fn neighbor(self, dir: PageDir) -> PageCursor {
        match (self, dir) {
            (PagerView::Search { next, .. }, PageDir::Next) => next->0,
            (PagerView::Search { back, .. }, PageDir::Prev) => back[back.len() - 2],
            _ => PageCursor::Start,
        }
    }

    /// Whether `fetch` asks for the neighbor page.
    pub open spec fn asks(self, dir: PageDir, page: int, fetch: PageFetch) -> bool {
        match (self, fetch) {
            (
                PagerView::Search { source, query, .. },
                PageFetch::Search { source: s, query: q, limit, cursor },
            ) => {
                &&& s == source
                &&& q@ == query
                &&& limit == PAGE_SIZE
                &&& cursor == self.neighbor(dir)
            },
            (PagerView::Favs { .. }, PageFetch::Favs { limit, offset }) => {
                &&& limit == PAGE_SIZE
                &&& offset == (match dir {
                    PageDir::Next => (page + 1) * PAGE_SIZE,
                    PageDir::Prev => (page - 1) * PAGE_SIZE,
                })
            },
            _ => false,
        }
    }

    /// The pager once the neighbor page came in as `reply`. A page of a search
    /// that is empty changes nothing; favorites take note of the total in any
    /// case.
    pub open spec fn turned(
        self,
        dir: PageDir,
        empty: bool,
        reply_next: Option<PageCursor>,
        reply_total: Option<usize>,
    ) -> PagerView {
        match self {
            PagerView::Search { cfg, source, query, back, next, total } => if empty {
                self
            } else {
                PagerView::Search {
                    cfg,
                    source,
                    query,
                    back: match dir {
                        PageDir::Next => if next is Some {
                            back.push(next->0)
                        } else {
                            back
                        },
                        PageDir::Prev => if back.len() >= 2 {
                            back.drop_last()
                        } else {
                            back
                        },
                    },
                    next: reply_next,
                    total: latest(reply_total, total),
                }
            },
            PagerView::Favs { backend, total } => PagerView::Favs {
                backend,
                total: latest(reply_total, total),
            },
        }
    }
}

impl Pager {
    /// Pager for search results. The cursor and the total come from the initial
    /// fetch.
    pub fn search(
        cfg: Config,
        source: Source,
        query: String,
        next: Option<PageCursor>,
        total: Option<usize>,
    ) -> (r: Pager)
        ensures
            r@ == (PagerView::Search {
                cfg,
                source,
                query: query@,
                back: seq![PageCursor::Start],
                next,
                total,
            }),
            r@.at_page(0),
    {
        let mut back: Vec<PageCursor> = Vec::new();
        back.push(PageCursor::Start);
        assert(back@ == seq![PageCursor::Start]);
        Pager::Search { cfg, source, query, back, next, total }
    }

    /// Pager for favorites: the self-hosted server or the local store, behind
    /// the same backend. The total comes from the initial fetch.
    pub fn favs(backend: FavsBackend, total: Option<usize>) -> (r: Pager)
        ensures
            r@ == (PagerView::Favs { backend, total }),
    {
        Pager::Favs { backend, total }
    }

    /// Total items across all pages, when the source reports it.
    pub fn total(&self) -> (r: Option<usize>)
        ensures
            r == self@.total(),
    {
        match self {
            Pager::Search { total, .. } => *total,
            Pager::Favs { total, .. } => *total,
        }
    }

    /// Begins a turn to the neighbor page, given the number of the current page.
    /// With a known total, turns past the last page are refused without a
    /// fetch.
    pub fn turn(&self, dir: PageDir, page: usize) -> (r: TurnStart)
        requires
            self@.countable(page as int),
        ensures
            match r {
                TurnStart::AtLast => self@.refuses(dir, page as int) == Some(PageDir::Next),
                TurnStart::AtFirst => self@.refuses(dir, page as int) == Some(PageDir::Prev),
                TurnStart::Fetch(fetch) => {
                    &&& self@.refuses(dir, page as int) is None
                    &&& self@.asks(dir, page as int, fetch)
                },
            },
    {
        match self {
            Pager::Search { source, query, back, next, total, .. } => {
                let cursor: PageCursor = match dir {
                    PageDir::Next => {
                        if let Some(t) = *total {
                            if page + 1 >= total_pages(t) {
                                return TurnStart::AtLast;
                            }
                        }
                        match next {
                            Some(c) => c.clone(),
                            None => return TurnStart::AtLast,
                        }
                    },
                    PageDir::Prev => {
                        if back.len() < 2 {
                            return TurnStart::AtFirst;
                        }
                        back[back.len() - 2].clone()
                    },
                };
                TurnStart::Fetch(
                    PageFetch::Search {
                        source: *source,
                        query: query.clone(),
                        limit: PAGE_SIZE,
                        cursor,
                    },
                )
            },
            Pager::Favs { total, .. } => {
                let target: usize = match dir {
                    PageDir::Next => {
                        if let Some(t) = *total {
                            if page + 1 >= total_pages(t) {
                                return TurnStart::AtLast;
                            }
                        }
                        page + 1
                    },
                    PageDir::Prev => {
                        if page == 0 {
                            return TurnStart::AtFirst;
                        }
                        page - 1
                    },
                };
                TurnStart::Fetch(PageFetch::Favs { limit: PAGE_SIZE, offset: target * PAGE_SIZE })
            },
        }
    }

    /// Ends a turn with what was fetched. The state of the pager only changes
    /// when the fetch succeeded.
    pub fn turned(&mut self, dir: PageDir, reply: Result<PageReply, String>) -> (r: Result<
        PageTurn,
        String,
    >)
        ensures
            match reply {
                Err(e) => r == Err::<PageTurn, String>(e) && final(self)@ == old(self)@,
                Ok(page) => {
                    &&& final(self)@ == old(self)@.turned(
                        dir,
                        page.items@.len() == 0,
                        page.next,
                        page.total,
                    )
                    &&& if page.items@.len() == 0 {
                        r == Ok::<PageTurn, String>(PageTurn::AtLast)
                    } else {
                        r == Ok::<PageTurn, String>(PageTurn::Page(page.items))
                    }
                },
            },
    {
        let page: PageReply = match reply {
            Ok(page) => page,
            Err(e) => return Err(e),
        };
        let empty: bool = page.items.len() == 0;
        match self {
            Pager::Search { back, next, total, .. } => {
                if empty {
                    return Ok(PageTurn::AtLast);
                }
                match dir {
                    PageDir::Next => {
                        if let Some(c) = next {
                            back.push(c.clone());
                        }
                    },
                    PageDir::Prev => {
                        if back.len() >= 2 {
                            back.pop();
                        }
                    },
                }
                *next = page.next;
                *total = newer(page.total, *total);
            },
            Pager::Favs { total, .. } => {
                *total = newer(page.total, *total);
                if empty {
                    return Ok(PageTurn::AtLast);
                }
            },
        }
        Ok(PageTurn::Page(page.items))
    }
}

/// Turning on and back leads to the page one came from, by the same cursors.
pub proof fn lemma_next_then_prev(
    p: PagerView,
    page: int,
    next1: Option<PageCursor>,
    total1: Option<usize>,
    next2: Option<PageCursor>,
    total2: Option<usize>,
)
    requires
        0 <= page,
        p is Search,
        p.at_page(page),
        p.refuses(PageDir::Next, page) is None,
    ensures
        ({
            let there = p.turned(PageDir::Next, false, next1, total1);
            let again = there.turned(PageDir::Prev, false, next2, total2);
            &&& there.at_page(page + 1)
            &&& there.refuses(PageDir::Prev, page + 1) is None
            &&& there.neighbor(PageDir::Prev) == p->back[page]
            &&& again->back == p->back
            &&& again.at_page(page)
        }),
{
    let there = p.turned(PageDir::Next, false, next1, total1);
    assert(there->back == p->back.push(p->next->0));
    assert(there->back.drop_last() == p->back);
}

/// However a turn that was not refused ends, the cursors lead to the page that
/// is then shown.
pub proof fn lemma_turn_keeps_place(
    p: PagerView,
    dir: PageDir,
    page: int,
    next: Option<PageCursor>,
    total: Option<usize>,
)
    requires
        0 <= page,
        p.at_page(page),
        p.refuses(dir, page) is None,
    ensures
        p.turned(dir, true, next, total).at_page(page),
        dir == PageDir::Next ==> p.turned(dir, false, next, total).at_page(page + 1),
        dir == PageDir::Prev ==> page > 0 && p.turned(dir, false, next, total).at_page(page - 1),
{
}

/// With a known total, every page that holds an item can be reached and no page
/// after them: turning on is refused exactly on the last one, as long as there
/// is a cursor.
pub proof fn lemma_total_bounds_turns(p: PagerView, page: int)
    requires
        0 <= page,
        p.total() is Some,
        p is Search ==> p->next is Some,
    ensures
        p.refuses(PageDir::Next, page) is None <==> (page + 1) * PAGE_SIZE < p.total()->0,
{
    let t = p.total()->0 as int;
    crate::grid::lemma_pages_cover(t);
}

} // verus!
