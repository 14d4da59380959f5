//! What turning a page asks for and what comes of it.

use vstd::prelude::*;

use crate::app::{App, Pending, PickerView, Tab};
use crate::config::Config;
use crate::favs::{FavsBackend, FavsPage};
use crate::grid::PAGE_SIZE;
use crate::laws::keys::shown;
use crate::pager::{PageDir, PageFetch, PageReply, PageTurn, Pager, TurnStart};
use crate::providers::{PageCursor, SearchPage, Source};
use crate::work::{Effect, Reply};

verus! {

/// Whether two fetches ask for the same page.
pub open spec fn same_fetch(a: PageFetch, b: PageFetch) -> bool {
    match (a, b) {
        (
            PageFetch::Search { source: s, query: q, limit: l, cursor: c },
            PageFetch::Search { source: t, query: r, limit: m, cursor: d },
        ) => s == t && q@ == r@ && l == m && c == d,
        (PageFetch::Favs { limit: l, offset: o }, PageFetch::Favs { limit: m, offset: p }) => l == m
            && o == p,
        _ => false,
    }
}

/// Going back in the favorites is refused on the first page alone; from any other
/// page the one before it is fetched, whole.
pub proof fn lemma_favorites_turn_back(p: Pager, page: usize, r: TurnStart)
    requires
        p is Favs,
        call_ensures(Pager::turn, (&p, PageDir::Prev, page), r),
    ensures
        page == 0 ==> r is AtFirst,
        page > 0 ==> {
            &&& r is Fetch
            &&& r->Fetch_0 is Favs
            &&& r->Fetch_0->Favs_limit == PAGE_SIZE
            &&& r->Fetch_0->offset + PAGE_SIZE == page * PAGE_SIZE
        },
{
}

/// Going on in the favorites is refused if the total says that nothing follows the
/// page, and only then; otherwise what follows it is fetched.
pub proof fn lemma_favorites_turn_on(p: Pager, page: usize, r: TurnStart)
    requires
        p is Favs,
        call_ensures(Pager::turn, (&p, PageDir::Next, page), r),
    ensures
        ({
            let shown_so_far = (page + 1) * PAGE_SIZE;
            let total = p->Favs_total;
            &&& total is Some && shown_so_far >= total->0 ==> r is AtLast
            &&& total is None || shown_so_far < total->0 ==> {
                &&& r is Fetch
                &&& r->Fetch_0 is Favs
                &&& r->Fetch_0->Favs_limit == PAGE_SIZE
                &&& r->Fetch_0->offset == shown_so_far
            }
        }),
{
    if p->Favs_total is Some {
        crate::pager::lemma_total_bounds_turns(p@, page as int);
    }
}

/// Going back in a search is refused on the first page alone; otherwise the page
/// before is fetched by the cursor that it was fetched with.
pub proof fn lemma_search_turn_back(p: Pager, page: usize, r: TurnStart)
    requires
        p is Search,
        call_ensures(Pager::turn, (&p, PageDir::Prev, page), r),
    ensures
        p->back@.len() < 2 ==> r is AtFirst,
        p->back@.len() >= 2 ==> {
            &&& r is Fetch
            &&& r->Fetch_0 is Search
            &&& r->Fetch_0->source == p->source
            &&& r->Fetch_0->query@ == p->query@
            &&& r->Fetch_0->Search_limit == PAGE_SIZE
            &&& r->Fetch_0->cursor == p->back@[p->back@.len() - 2]
        },
{
}

/// Going on in a search is refused without a cursor, or if the total says that
/// nothing follows the page, and only then; otherwise the page that the cursor
/// names is fetched.
pub proof fn lemma_search_turn_on(p: Pager, page: usize, r: TurnStart)
    requires
        p is Search,
        call_ensures(Pager::turn, (&p, PageDir::Next, page), r),
    ensures
        ({
            let total = p->Search_total;
            let past = total is Some && (page + 1) * PAGE_SIZE >= total->0;
            &&& past || p->next is None ==> r is AtLast
            &&& !past && p->next is Some ==> {
                &&& r is Fetch
                &&& r->Fetch_0 is Search
                &&& r->Fetch_0->source == p->source
                &&& r->Fetch_0->query@ == p->query@
                &&& r->Fetch_0->Search_limit == PAGE_SIZE
                &&& Some(r->Fetch_0->cursor) == p->next
            }
        }),
{
    if p->Search_total is Some {
        crate::grid::lemma_pages_cover(p->Search_total->0 as int);
    }
}

/// A failed fetch is reported, and the pager stays as it is.
pub proof fn lemma_failed_turn(p: &mut Pager, dir: PageDir, e: String, r: Result<PageTurn, String>)
    requires
        call_ensures(Pager::turned, (p, dir, Err::<PageReply, String>(e)), r),
    ensures
        r == Err::<PageTurn, String>(e),
        final(p)@ == old(p)@,
{
}

/// A page that came in is handed on as it is; an empty one ends the turn. A pager
/// of favorites stays at its backend and takes note of the total, if one is
/// reported.
pub proof fn lemma_favorites_turned(
    p: &mut Pager,
    dir: PageDir,
    reply: PageReply,
    r: Result<PageTurn, String>,
)
    requires
        (*old(p)) is Favs,
        call_ensures(Pager::turned, (p, dir, Ok::<PageReply, String>(reply)), r),
    ensures
        reply.items@.len() == 0 ==> r == Ok::<PageTurn, String>(PageTurn::AtLast),
        reply.items@.len() > 0 ==> r == Ok::<PageTurn, String>(PageTurn::Page(reply.items)),
        (*final(p)) is Favs,
        (*final(p))->backend == (*old(p))->backend,
        reply.total is Some ==> (*final(p))->Favs_total == reply.total,
        reply.total is None ==> (*final(p))->Favs_total == (*old(p))->Favs_total,
{
}

/// A page of a search that came in is handed on, and the pager stands on it: going
/// on adds its cursor to those one has come by, going back takes the last one away,
/// and the reply says what follows. An empty page changes nothing.
pub proof fn lemma_search_turned(
    p: &mut Pager,
    dir: PageDir,
    reply: PageReply,
    r: Result<PageTurn, String>,
)
    requires
        (*old(p)) is Search,
        call_ensures(Pager::turned, (p, dir, Ok::<PageReply, String>(reply)), r),
    ensures
        reply.items@.len() == 0 ==> r == Ok::<PageTurn, String>(PageTurn::AtLast) && final(p)@
            == old(p)@,
        reply.items@.len() > 0 ==> {
            &&& r == Ok::<PageTurn, String>(PageTurn::Page(reply.items))
            &&& (*final(p)) is Search
            &&& (*final(p))->cfg == (*old(p))->cfg
            &&& (*final(p))->source == (*old(p))->source
            &&& (*final(p))->query@ == (*old(p))->query@
            &&& (*final(p))->next == reply.next
            &&& reply.total is Some ==> (*final(p))->Search_total == reply.total
            &&& reply.total is None ==> (*final(p))->Search_total == (*old(p))->Search_total
            &&& dir == PageDir::Next && (*old(p))->next is Some ==> {
                &&& (*final(p))->back@.len() == (*old(p))->back@.len() + 1
                &&& (*final(p))->back@.take((*old(p))->back@.len() as int) == (*old(p))->back@
                &&& Some((*final(p))->back@.last()) == (*old(p))->next
            }
            &&& dir == PageDir::Prev && (*old(p))->back@.len() >= 2 ==> {
                &&& (*final(p))->back@.len() + 1 == (*old(p))->back@.len()
                &&& (*old(p))->back@.take((*final(p))->back@.len() as int) == (*final(p))->back@
            }
        },
{
    let back = (*old(p))->back@;
    if reply.items@.len() > 0 {
        if (*old(p))->next is Some {
            assert(back.push((*old(p))->next->0).take(back.len() as int) == back);
        }
        if back.len() >= 2 {
            assert(back.take(back.len() - 1) == back.drop_last());
        }
    }
}

/// Turning on and then back leads to the page one came from: the way back is never
/// refused, and it asks for the items before the page that was turned to, or for the
/// cursor that the page was fetched with.
pub proof fn lemma_there_and_back(
    before: Pager,
    page: usize,
    on: TurnStart,
    p: &mut Pager,
    reply: PageReply,
    turn: Result<PageTurn, String>,
    after: Pager,
    back: TurnStart,
)
    requires
        call_ensures(Pager::turn, (&before, PageDir::Next, page), on),
        on is Fetch,
        old(p)@ == before@,
        call_ensures(Pager::turned, (p, PageDir::Next, Ok::<PageReply, String>(reply)), turn),
        reply.items@.len() > 0,
        after@ == final(p)@,
        page < usize::MAX,
        call_ensures(Pager::turn, (&after, PageDir::Prev, (page + 1) as usize), back),
        before is Search ==> before->back@.len() == page + 1,
    ensures
        back is Fetch,
        before is Favs ==> back->Fetch_0 is Favs && back->Fetch_0->offset == page * PAGE_SIZE
            && back->Fetch_0->Favs_limit == PAGE_SIZE,
        before is Search ==> back->Fetch_0 is Search && back->Fetch_0->cursor
            == before->back@[page as int] && back->Fetch_0->query@ == before->query@,
{
}

/// A new search pager stands on the first page: going back is refused.
pub proof fn lemma_search_starts_first(
    cfg: Config,
    source: Source,
    query: String,
    next: Option<PageCursor>,
    total: Option<usize>,
    p: Pager,
    r: TurnStart,
)
    requires
        call_ensures(Pager::search, (cfg, source, query, next, total), p),
        call_ensures(Pager::turn, (&p, PageDir::Prev, 0), r),
    ensures
        r is AtFirst,
        p is Search,
        p->cfg == cfg,
        p->source == source,
        p->query@ == query@,
        p->next == next,
        p->Search_total == total,
        p->back@.len() == 1 && p->back@[0] == PageCursor::Start,
{
}

/// A new pager of favorites knows its backend and its total, and `total` tells it.
pub proof fn lemma_favorites_pager(
    backend: FavsBackend,
    total: Option<usize>,
    p: Pager,
    t: Option<usize>,
)
    requires
        call_ensures(Pager::favs, (backend, total), p),
        call_ensures(Pager::total, (&p,), t),
    ensures
        p is Favs,
        p->backend == backend,
        p->Favs_total == total,
        t == total,
{
}

/// The total of a search pager is the one it was given.
pub proof fn lemma_search_total(p: Pager, t: Option<usize>)
    requires
        call_ensures(Pager::total, (&p,), t),
    ensures
        p is Search ==> t == p->Search_total,
        p is Favs ==> t == p->Favs_total,
{
}

/// A page of search results becomes a page of the grid item by item, in order, with
/// the cursor and the total that came with it.
pub proof fn lemma_search_reply_keeps_results(page: SearchPage, r: PageReply, i: int)
    requires
        call_ensures(crate::pager::search_reply, (page,), r),
        0 <= i < page.results@.len(),
    ensures
        r.items@.len() == page.results@.len(),
        r.next == page.next,
        r.total == page.total,
        r.items@[i].id == page.results@[i].id,
        r.items@[i].url == page.results@[i].url,
        r.items@[i].preview_url == page.results@[i].preview_url,
        r.items@[i].provider == page.results@[i].provider,
        page.results@[i].title@.len() > 0 ==> r.items@[i].title == page.results@[i].title,
        page.results@[i].title@.len() == 0 ==> r.items@[i].title == page.results@[i].id,
{
}

/// A page of favorites becomes a page of the grid favorite by favorite, in order.
pub proof fn lemma_favs_reply_keeps_favorites(page: FavsPage, r: PageReply, i: int)
    requires
        call_ensures(crate::pager::favs_reply, (page,), r),
        0 <= i < page.items@.len(),
    ensures
        r.items@.len() == page.items@.len(),
        r.next is None,
        r.total == page.total,
        r.items@[i].id == page.items@[i].id,
        r.items@[i].url == page.items@[i].url,
        r.items@[i].preview_url == page.items@[i].preview,
        r.items@[i].provider == crate::providers::provider_named(page.items@[i].provider@),
        page.items@[i].title@.len() > 0 ==> r.items@[i].title == page.items@[i].title,
        page.items@[i].title@.len() == 0 ==> r.items@[i].title == page.items@[i].id,
{
}

/// The picker turns a page as the pager of its active grid does: what the pager
/// refuses is told in the footer, and what it asks for is fetched.
pub proof fn lemma_picker_turns_by_pager<F>(
    app: &mut App<F>,
    dir: PageDir,
    r: Option<PageFetch>,
    t: TurnStart,
)
    requires
        shown(*old(app)).pager is Some,
        call_ensures(App::<F>::begin_page, (app, dir), r),
        call_ensures(
            Pager::turn,
            (&shown(*old(app)).pager->0, dir, shown(*old(app)).page),
            t,
        ),
    ensures
        match t {
            TurnStart::AtFirst => r is None && final(app)@ == (PickerView {
                status: Some("already on the first page"@),
                ..old(app)@
            }),
            TurnStart::AtLast => r is None && final(app)@ == (PickerView {
                status: Some("no more results"@),
                ..old(app)@
            }),
            TurnStart::Fetch(fetch) => r is Some && same_fetch(r->0, fetch) && final(app)@
                == old(app)@,
        },
{
}

/// Without a pager nothing is turned and nothing is said.
pub proof fn lemma_nothing_to_turn<F>(app: &mut App<F>, dir: PageDir, r: Option<PageFetch>)
    requires
        shown(*old(app)).pager is None,
        call_ensures(App::<F>::begin_page, (app, dir), r),
    ensures
        r is None,
        final(app)@ == old(app)@,
{
}

/// The work that d and u queue is the page turn: what is fetched is what
/// `begin_page` asks for.
pub proof fn lemma_page_work<F>(
    a: &mut App<F>,
    b: &mut App<F>,
    dir: PageDir,
    e: Option<Effect>,
    r: Option<PageFetch>,
)
    requires
        old(a)@ == old(b)@,
        call_ensures(App::<F>::begin_work, (a, Pending::Page(dir)), e),
        call_ensures(App::<F>::begin_page, (b, dir), r),
    ensures
        e is Some <==> r is Some,
        e is Some ==> {
            &&& e->0 is TurnPage
            &&& e->0->dir == dir
            &&& same_fetch(e->0->TurnPage_fetch, r->0)
        },
        final(a)@ == final(b)@,
{
}

/// A page that could not be fetched is told in the footer, and everything else stays.
pub proof fn lemma_failed_page<F>(app: &mut App<F>, dir: PageDir, e: String)
    requires
        shown(*old(app)).pager is Some,
        call_ensures(App::<F>::finish_page, (app, dir, Err::<PageReply, String>(e)), ()),
    ensures
        final(app)@ == (PickerView { status: Some("page load failed: "@ + e@), ..old(app)@ }),
{
}

/// An empty page leaves the one that is shown, cursor and all, and the footer says
/// that there is nothing more.
pub proof fn lemma_empty_page<F>(app: &mut App<F>, dir: PageDir, reply: PageReply)
    requires
        shown(*old(app)).pager is Some,
        reply.items@.len() == 0,
        call_ensures(App::<F>::finish_page, (app, dir, Ok::<PageReply, String>(reply)), ()),
    ensures
        shown(*final(app)).items@ == shown(*old(app)).items@,
        shown(*final(app)).selected == shown(*old(app)).selected,
        shown(*final(app)).first_item == shown(*old(app)).first_item,
        shown(*final(app)).page == shown(*old(app)).page,
        shown(*final(app)).pager is Some,
        final(app).tab == old(app).tab,
        final(app)@ == (PickerView {
            search: final(app)@.search,
            favorites: final(app)@.favorites,
            status: Some("no more results"@),
            ..old(app)@
        }),
        old(app).tab == Tab::Search ==> final(app)@.favorites == old(app)@.favorites,
        old(app).tab == Tab::Favorites ==> final(app)@.search == old(app)@.search,
{
}

/// A page that came in is shown in place of the old one: its items from the first
/// on, under the number of the page that was turned to. The footer is cleared, no
/// preview of the old page is kept, and the other tab stays as it is.
pub proof fn lemma_page_arrives<F>(app: &mut App<F>, dir: PageDir, reply: PageReply)
    requires
        shown(*old(app)).pager is Some,
        reply.items@.len() > 0,
        call_ensures(App::<F>::finish_page, (app, dir, Ok::<PageReply, String>(reply)), ()),
    ensures
        ({
            let g = shown(*old(app));
            let n = shown(*final(app));
            &&& n.items@ == reply.items@
            &&& n.selected == 0
            &&& n.first_item == 0
            &&& dir == PageDir::Next ==> n.page == g.page + 1
            &&& dir == PageDir::Prev && g.page > 0 ==> n.page == g.page - 1
            &&& dir == PageDir::Prev && g.page == 0 ==> n.page == 0
            &&& n.pager is Some
        }),
        final(app).tab == old(app).tab,
        old(app)@.previews is Some ==> final(app)@.previews is Some
            && final(app)@.previews->0.entries.len() == 0 && final(app)@.previews->0.cap
            == old(app)@.previews->0.cap,
        final(app)@ == (PickerView {
            search: final(app)@.search,
            favorites: final(app)@.favorites,
            status: None,
            previews: final(app)@.previews,
            ..old(app)@
        }),
        old(app)@.previews is None ==> final(app)@.previews is None,
        old(app).tab == Tab::Search ==> final(app)@.favorites == old(app)@.favorites,
        old(app).tab == Tab::Favorites ==> final(app)@.search == old(app)@.search,
{
}

/// The pager of the grid ends a turn as the pager by itself does.
pub proof fn lemma_grid_keeps_its_pager<F>(
    app: &mut App<F>,
    p: &mut Pager,
    dir: PageDir,
    reply: PageReply,
    r: Result<PageTurn, String>,
)
    requires
        shown(*old(app)).pager is Some,
        call_ensures(App::<F>::finish_page, (app, dir, Ok::<PageReply, String>(reply)), ()),
        old(p)@ == shown(*old(app)).pager->0@,
        call_ensures(Pager::turned, (p, dir, Ok::<PageReply, String>(reply)), r),
    ensures
        shown(*final(app)).pager is Some,
        shown(*final(app)).pager->0@ == final(p)@,
{
}

/// What a page turn brought is taken as `finish_page` takes it, and ends the work.
pub proof fn lemma_page_reply_ends_work<F>(
    a: &mut App<F>,
    b: &mut App<F>,
    dir: PageDir,
    fetch: PageFetch,
    reply: Result<PageReply, String>,
    r: Option<Effect>,
)
    requires
        old(a)@ == old(b)@,
        call_ensures(App::<F>::take_reply, (a, Effect::TurnPage { dir, fetch }, Reply::Page(reply)), r),
        call_ensures(App::<F>::finish_page, (b, dir, reply), ()),
    ensures
        r is None,
        final(a)@ == final(b)@,
{
}

} // verus!
