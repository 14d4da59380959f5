//! Deferred work of the picker: what to fetch, and what the reply changes.

use vstd::prelude::*;
use vstd::string::*;

use crate::app::{turned_page, App, GridView, Pending, PickerView, Tab, TurnEnd};
use crate::favs::{FavItem, FavsPage};
use crate::grid::PAGE_SIZE;
use crate::item::{fav_items, gif_items, items_of_favs, items_of_gifs, UrlItem};
use crate::pager::{PageDir, PageFetch, PageReply, Pager, PagerView, TurnStart};
use crate::providers::{GifResult, PageCursor, SearchPage};
use crate::text::{blank, decimal, is_blank, joined, push_decimal, trim, trimmed};

verus! {

/// What to do with the favorite state of an item.
#[derive(Debug)]
pub enum Toggle {
    /// Save it as a favorite.
    Save(GifResult),
    /// Remove the favorite with this id.
    Delete(String),
}

/// The search result that stands for an item.
pub open spec fn gif_of(item: UrlItem) -> GifResult {
    GifResult {
        id: item.id,
        title: item.title,
        url: item.url,
        preview_url: item.preview_url,
        provider: item.provider,
    }
}

/// The ids of some favorites.
pub open spec fn ids_of(items: Seq<FavItem>) -> Set<Seq<char>> {
    items.map_values(|f: FavItem| f.id@).to_set()
}

/// What is said of a toggle that was carried out.
pub open spec fn toggle_message(was_favorite: bool, local: bool) -> Seq<char> {
    match (was_favorite, local) {
        (true, true) => "☆ removed from local favorites"@,
        (true, false) => "☆ removed from favorites"@,
        (false, true) => "★ saved to local favorites"@,
        (false, false) => "★ saved to favorites"@,
    }
}

/// What is said of the results of a search.
pub open spec fn results_message(n: nat) -> Seq<char> {
    if n == 0 {
        "no results"@
    } else {
        decimal(n) + " results"@
    }
}

/// Where the page with the given number starts.
pub fn page_offset(page: usize) -> (r: usize)
    requires
        page <= usize::MAX / PAGE_SIZE,
    ensures
        r == page * PAGE_SIZE,
{
    page * PAGE_SIZE
}

impl PagerView {
    /// The pager of favorites with a new total, if there is one.
    pub open spec fn reported(self, report: Option<usize>) -> PagerView {
        match self {
            PagerView::Favs { backend, total } => PagerView::Favs {
                backend,
                total: crate::pager::latest(report, total),
            },
            _ => self,
        }
    }
}

impl<F> PickerView<F> {
    /// The picker once a page turn was refused.
    pub open spec fn refused(self, why: PageDir) -> PickerView<F> {
        match why {
            PageDir::Next => self.told("no more results"@),
            PageDir::Prev => self.told("already on the first page"@),
        }
    }

    /// The picker once the neighbor page came in, or did not. The current page
    /// is kept if there is no other.
    pub open spec fn page_finished(
        self,
        dir: PageDir,
        reply: Result<PageReply, String>,
    ) -> PickerView<F> {
        let g = self.grid();
        match (g.pager, reply) {
            (None, _) => self,
            (Some(_), Err(e)) => self.told("page load failed: "@ + e@),
            (Some(p), Ok(page)) => {
                let empty = page.items@.len() == 0;
                let turned = GridView {
                    pager: Some(p.turned(dir, empty, page.next, page.total)),
                    ..g
                };
                if empty {
                    self.with_grid(turned).told("no more results"@)
                } else {
                    self.with_grid(
                        GridView { page: turned_page(dir, g.page), ..turned },
                    ).with_page(page.items@)
                }
            },
        }
    }

    /// The picker once a search for `q` came in, or did not. The old grid is
    /// kept if it did not.
    pub open spec fn search_finished(
        self,
        q: Seq<char>,
        reply: Result<SearchPage, String>,
    ) -> PickerView<F> {
        match reply {
            Err(e) => self.told("search failed: "@ + e@),
            Ok(page) => {
                let found = PickerView {
                    tab: Tab::Search,
                    search: GridView {
                        pager: Some(
                            PagerView::Search {
                                cfg: self.cfg,
                                source: self.source,
                                query: q,
                                back: seq![PageCursor::Start],
                                next: page.next,
                                total: page.total,
                            },
                        ),
                        page: 0,
                        ..self.search
                    },
                    ..self
                };
                found.with_page(items_of_gifs(page.results@)).told(
                    results_message(page.results@.len()),
                )
            },
        }
    }

    /// The picker once the favorite state of the item with the given id changed.
    pub open spec fn toggled(self, id: Seq<char>, was_favorite: bool) -> PickerView<F> {
        PickerView {
            fav_ids: if was_favorite {
                self.fav_ids.remove(id)
            } else {
                self.fav_ids.insert(id)
            },
            ..self
        }.told(toggle_message(was_favorite, self.favs is Local))
    }

    /// The picker with the favorites page replaced by what it now is: the cursor
    /// stays as far as there are items.
    pub open spec fn refreshed(
        self,
        page: int,
        items: Seq<UrlItem>,
        total: Option<usize>,
    ) -> PickerView<F> {
        PickerView {
            favorites: GridView {
                page,
                items,
                selected: if items.len() == 0 {
                    0
                } else if self.favorites.selected < items.len() {
                    self.favorites.selected
                } else {
                    items.len() - 1
                },
                first_item: 0,
                pager: match self.favorites.pager {
                    Some(p) => Some(p.reported(total)),
                    None => None,
                },
            },
            ..self
        }
    }

    /// Whether the favorites page has to be loaded: its tab is shown for the
    /// first time.
    pub open spec fn wants_favorites(self) -> bool {
        self.tab == Tab::Favorites && self.favorites.pager is None
    }

    /// The picker once the first page of favorites came in, or did not.
    pub open spec fn favorites_loaded(self, reply: Result<FavsPage, String>) -> PickerView<F> {
        match reply {
            Err(e) => self.told("favorites load failed: "@ + e@),
            Ok(page) => PickerView {
                favorites: GridView {
                    pager: Some(PagerView::Favs { backend: self.favs, total: page.total }),
                    page: 0,
                    ..self.favorites
                },
                ..self
            }.with_page(items_of_favs(page.items@)),
        }
    }

    /// The picker as the work that was queued begins.
    pub open spec fn begun(self) -> PickerView<F> {
        let taken = PickerView { pending: None, ..self };
        match self.pending {
            Some(Pending::Page(_)) => taken.told("loading…"@),
            Some(Pending::Search) => taken.told("searching '"@ + trimmed(self.query) + "'…"@),
            Some(Pending::CopyGif) => taken.told("copying gif…"@),
            _ => taken,
        }
    }
}

/// Whether the footer says that work has begun, so that the screen has to be drawn
/// before the work is done.
pub fn announced(work: Pending) -> (r: bool)
    ensures
        r == (work is Page || work is Search || work is CopyGif),
{
    matches!(work, Pending::Page(_) | Pending::Search | Pending::CopyGif)
}

impl<F> App<F> {
    /// Takes the queued work, if there is any, and says in the footer that it
    /// has begun.
    pub fn begin_pending(&mut self) -> (r: Option<Pending>)
        requires
            old(self).wf(),
        ensures
            final(self).wf(),
            r == old(self)@.pending,
            final(self)@ == old(self)@.begun(),
    {
        let work: Option<Pending> = self.pending;
        self.pending = None;
        match work {
            Some(Pending::Page(_)) => {
                self.status = Some("loading…".to_owned());
            },
            Some(Pending::Search) => {
                let mut told: String = "searching '".to_owned();
                told.append(trim(self.query.as_str()).as_str());
                told.append("'…");
                self.status = Some(told);
            },
            Some(Pending::CopyGif) => {
                self.status = Some("copying gif…".to_owned());
            },
            _ => {},
        }
        work
    }

    /// Begins to turn to the neighbor page: the page to fetch, or `None` if
    /// there is no pager or the footer says why the turn was refused.
    pub fn begin_page(&mut self, dir: PageDir) -> (r: Option<PageFetch>)
        requires
            old(self).wf(),
            old(self)@.grid().turn_countable(),
        ensures
            final(self).wf(),
            match (old(self)@.grid().pager, r) {
                (None, fetch) => fetch is None && final(self)@ == old(self)@,
                (Some(p), Some(fetch)) => {
                    &&& p.refuses(dir, old(self)@.grid().page) is None
                    &&& p.asks(dir, old(self)@.grid().page, fetch)
                    &&& final(self)@ == old(self)@
                },
                (Some(p), None) => {
                    &&& p.refuses(dir, old(self)@.grid().page) is Some
                    &&& final(self)@ == old(self)@.refused(
                        p.refuses(dir, old(self)@.grid().page)->0,
                    )
                },
            },
    {
        let page: usize = self.grid().page;
        let start: TurnStart = match &self.grid().pager {
            None => return None,
            Some(pager) => pager.turn(dir, page),
        };
        match start {
            TurnStart::AtFirst => {
                self.status = Some("already on the first page".to_owned());
                None
            },
            TurnStart::AtLast => {
                self.status = Some("no more results".to_owned());
                None
            },
            TurnStart::Fetch(fetch) => Some(fetch),
        }
    }

    /// Applies the neighbor page, or says in the footer why there is none.
    pub fn finish_page(&mut self, dir: PageDir, reply: Result<PageReply, String>)
        requires
            old(self).wf(),
            old(self)@.grid().page < usize::MAX,
        ensures
            final(self).wf(),
            final(self)@ == old(self)@.page_finished(dir, reply),
    {
        let end: TurnEnd = match self.tab {
            Tab::Search => self.search.end_turn(dir, reply),
            Tab::Favorites => self.favorites.end_turn(dir, reply),
        };
        match end {
            TurnEnd::NoPager => {},
            TurnEnd::Replaced => {
                self.status = None;
                self.clear_previews();
            },
            TurnEnd::AtLast => {
                self.status = Some("no more results".to_owned());
            },
            TurnEnd::Failed(e) => {
                self.status = Some(joined("page load failed: ", e.as_str()));
            },
        }
    }

    /// Begins a fresh search: the first page of results for the query as it is
    /// trimmed, or `None` if the footer asks for a query.
    pub fn begin_search(&mut self) -> (r: Option<PageFetch>)
        requires
            old(self).wf(),
        ensures
            final(self).wf(),
            match r {
                Some(PageFetch::Search { source, query, limit, cursor }) => {
                    &&& !is_blank(old(self)@.query)
                    &&& source == old(self)@.source
                    &&& query@ == trimmed(old(self)@.query)
                    &&& limit == PAGE_SIZE
                    &&& cursor == PageCursor::Start
                    &&& final(self)@ == old(self)@
                },
                Some(PageFetch::Favs { .. }) => false,
                None => {
                    &&& is_blank(old(self)@.query)
                    &&& final(self)@ == old(self)@.told("type a query, then Enter"@)
                },
            },
    {
        if blank(self.query.as_str()) {
            self.status = Some("type a query, then Enter".to_owned());
            return None;
        }
        Some(
            PageFetch::Search {
                source: self.source,
                query: trim(self.query.as_str()),
                limit: PAGE_SIZE,
                cursor: PageCursor::Start,
            },
        )
    }

    /// Replaces the grid of the Search tab by the results of a search for `q`.
    /// An error is told in the footer, and the old grid is kept.
    pub fn finish_search(&mut self, q: String, reply: Result<SearchPage, String>)
        requires
            old(self).wf(),
        ensures
            final(self).wf(),
            final(self)@ == old(self)@.search_finished(q@, reply),
    {
        match reply {
            Err(e) => {
                self.status = Some(joined("search failed: ", e.as_str()));
            },
            Ok(page) => {
                let n: usize = page.results.len();
                let items: Vec<UrlItem> = gif_items(page.results);
                self.search.pager = Some(
                    Pager::search(self.cfg.clone(), self.source, q, page.next, page.total),
                );
                self.search.page = 0;
                self.tab = Tab::Search;
                self.apply_page(items);
                if n == 0 {
                    self.status = Some("no results".to_owned());
                } else {
                    let mut told: String = String::new();
                    push_decimal(&mut told, n as u128);
                    told.append(" results");
                    assert(told@ == decimal(n as nat) + " results"@);
                    self.status = Some(told);
                }
            },
        }
    }

    /// Begins to toggle the favorite state of the item at the cursor: removes it
    /// if it is a favorite and saves it if not.
    pub fn begin_toggle(&self) -> (r: Option<Toggle>)
        ensures
            match r {
                None => self@.grid().active() is None,
                Some(Toggle::Delete(id)) => {
                    &&& self@.grid().active() is Some
                    &&& id == self@.grid().active()->0.id
                    &&& self@.fav_ids.contains(id@)
                },
                Some(Toggle::Save(gif)) => {
                    &&& self@.grid().active() is Some
                    &&& gif == gif_of(self@.grid().active()->0)
                    &&& !self@.fav_ids.contains(gif.id@)
                },
            },
    {
        match self.active_item() {
            None => None,
            Some(item) => if self.fav_ids.contains(item.id.as_str()) {
                Some(Toggle::Delete(item.id.clone()))
            } else {
                Some(Toggle::Save(item.to_gif_result()))
            },
        }
    }

    /// Takes the outcome of a toggle. Whether the favorites page is to be
    /// refreshed: it is on screen, and has changed. A toggle that failed changes
    /// nothing but the footer.
    pub fn finish_toggle(&mut self, toggle: Toggle, result: Result<(), String>) -> (r: bool)
        requires
            old(self).wf(),
        ensures
            final(self).wf(),
            r == (result is Ok && old(self)@.tab == Tab::Favorites),
            final(self)@ == (match (result, toggle) {
                (Err(e), _) => old(self)@.told("favorite failed: "@ + e@),
                (Ok(()), Toggle::Delete(id)) => old(self)@.toggled(id@, true),
                (Ok(()), Toggle::Save(gif)) => old(self)@.toggled(gif.id@, false),
            }),
    {
        match result {
            Err(e) => {
                self.status = Some(joined("favorite failed: ", e.as_str()));
                false
            },
            Ok(()) => {
                let local: bool = self.favs.is_local();
                match toggle {
                    Toggle::Delete(id) => {
                        self.fav_ids.remove(id.as_str());
                        self.status = Some(
                            if local {
                                "☆ removed from local favorites".to_owned()
                            } else {
                                "☆ removed from favorites".to_owned()
                            },
                        );
                    },
                    Toggle::Save(gif) => {
                        self.fav_ids.insert(gif.id);
                        self.status = Some(
                            if local {
                                "★ saved to local favorites".to_owned()
                            } else {
                                "★ saved to favorites".to_owned()
                            },
                        );
                    },
                }
                self.tab == Tab::Favorites
            },
        }
    }

    /// Takes a fetch of the favorites page with the given number, so that the
    /// grid stays in sync after a toggle. If the page emptied out, the number of
    /// the page before it, to be fetched in its place. A failed fetch leaves
    /// everything as it was.
    pub fn refresh_favorites_page(
        &mut self,
        page: usize,
        fetched: Result<FavsPage, String>,
    ) -> (r: Option<usize>)
        requires
            old(self).wf(),
        ensures
            final(self).wf(),
            match fetched {
                Err(_) => r is None && final(self)@ == old(self)@,
                Ok(p) => if p.items@.len() == 0 && page > 0 {
                    r == Some((page - 1) as usize) && final(self)@ == old(self)@
                } else {
                    r is None && final(self)@ == old(self)@.refreshed(
                        page as int,
                        items_of_favs(p.items@),
                        p.total,
                    )
                },
            },
    {
        let fetched: FavsPage = match fetched {
            Ok(p) => p,
            Err(_) => return None,
        };
        if fetched.items.len() == 0 && page > 0 {
            return Some(page - 1);
        }
        let total: Option<usize> = fetched.total;
        let items: Vec<UrlItem> = fav_items(fetched.items);
        let len: usize = items.len();
        let selected: usize = self.favorites.selected;
        self.favorites.page = page;
        self.favorites.items = items;
        self.favorites.selected = if len == 0 {
            0
        } else if selected < len {
            selected
        } else {
            len - 1
        };
        self.favorites.first_item = 0;
        if let Some(Pager::Favs { total: known, .. }) = &mut self.favorites.pager {
            if total.is_some() {
                *known = total;
            }
        }
        None
    }

    /// The address of the item at the cursor, to be copied.
    pub fn begin_copy(&self) -> (r: Option<String>)
        ensures
            match r {
                Some(url) => self@.grid().active() is Some && url
                    == self@.grid().active()->0.url,
                None => self@.grid().active() is None,
            },
    {
        match self.active_item() {
            Some(item) => Some(item.url.clone()),
            None => None,
        }
    }

    fn finish_copy(&mut self, done: &str, result: Result<(), String>)
        requires
            old(self).wf(),
        ensures
            final(self).wf(),
            final(self)@ == (match result {
                Ok(()) => old(self)@.told(done@),
                Err(e) => old(self)@.told("copy failed: "@ + e@),
            }),
    {
        match result {
            Ok(()) => {
                self.status = Some(done.to_owned());
            },
            Err(e) => {
                self.status = Some(joined("copy failed: ", e.as_str()));
            },
        }
    }

    /// Says whether the GIF was put on the clipboard.
    pub fn finish_copy_gif(&mut self, result: Result<(), String>)
        requires
            old(self).wf(),
        ensures
            final(self).wf(),
            final(self)@ == (match result {
                Ok(()) => old(self)@.told("copied GIF to clipboard"@),
                Err(e) => old(self)@.told("copy failed: "@ + e@),
            }),
    {
        self.finish_copy("copied GIF to clipboard", result);
    }

    /// Says whether the address was put on the clipboard.
    pub fn finish_copy_url(&mut self, result: Result<(), String>)
        requires
            old(self).wf(),
        ensures
            final(self).wf(),
            final(self)@ == (match result {
                Ok(()) => old(self)@.told("copied URL"@),
                Err(e) => old(self)@.told("copy failed: "@ + e@),
            }),
    {
        self.finish_copy("copied URL", result);
    }

    /// Takes the list of favorites, for the star markers.
    pub fn finish_favorite_ids(&mut self, listed: Result<Vec<FavItem>, String>)
        requires
            old(self).wf(),
        ensures
            final(self).wf(),
            final(self)@ == (match listed {
                Ok(items) => PickerView { fav_ids: ids_of(items@), ..old(self)@ },
                Err(e) => old(self)@.told("favorites unavailable: "@ + e@),
            }),
    {
        match listed {
            Ok(items) => {
                let ghost all = items@;
                let mut ids: vstd::hash_set::StringHashSet = vstd::hash_set::StringHashSet::new();
                assert(ids@ == ids_of(all.take(0)));
                for f in it: items
                    invariant
                        it.seq() == all,
                        ids@ == ids_of(all.take(it.index())),
                {
                    proof {
                        lemma_ids_grow(all.take(it.index()), f);
                        assert(all.take(it.index() + 1) == all.take(it.index()).push(f));
                    }
                    ids.insert(f.id);
                }
                assert(all.take(all.len() as int) == all);
                self.fav_ids = ids;
            },
            Err(e) => {
                self.status = Some(joined("favorites unavailable: ", e.as_str()));
            },
        }
    }

    /// Whether the favorites page has to be loaded: its tab is shown for the
    /// first time.
    pub fn wants_favorites(&self) -> (r: bool)
        ensures
            r == self@.wants_favorites(),
    {
        self.tab == Tab::Favorites && self.favorites.pager.is_none()
    }

    /// Ends the work of a tab switch: takes the first page of favorites, if one
    /// was wanted, and drops the previews of the other tab.
    pub fn finish_tab_load(&mut self, page: Option<Result<FavsPage, String>>)
        requires
            old(self).wf(),
        ensures
            final(self).wf(),
            final(self)@ == (match page {
                Some(reply) if old(self)@.wants_favorites() => old(self)@.favorites_loaded(
                    reply,
                ),
                _ => old(self)@,
            }).without_previews(),
    {
        if let Some(reply) = page {
            if self.wants_favorites() {
                match reply {
                    Ok(p) => {
                        let total: Option<usize> = p.total;
                        let items: Vec<UrlItem> = fav_items(p.items);
                        self.favorites.pager = Some(Pager::favs(self.favs.clone(), total));
                        self.favorites.page = 0;
                        self.apply_page(items);
                    },
                    Err(e) => {
                        self.status = Some(joined("favorites load failed: ", e.as_str()));
                    },
                }
            }
        }
        self.clear_previews();
    }
}

proof fn lemma_ids_grow(items: Seq<FavItem>, f: FavItem)
    ensures
        ids_of(items.push(f)) == ids_of(items).insert(f.id@),
{
    let ids = items.map_values(|g: FavItem| g.id@);
    let more = items.push(f).map_values(|g: FavItem| g.id@);
    assert(more == ids.push(f.id@));
    assert forall|id: Seq<char>| #[trigger]
        more.to_set().contains(id) <==> ids.to_set().insert(f.id@).contains(id) by {
        if more.contains(id) {
            let i = choose|i: int| 0 <= i < more.len() && more[i] == id;
            if i < ids.len() {
                assert(ids[i] == id);
            }
        }
        if ids.contains(id) {
            let i = choose|i: int| 0 <= i < ids.len() && ids[i] == id;
            assert(more[i] == id);
        }
        if id == f.id@ {
            assert(more[ids.len() as int] == id);
        }
    }
    assert(more.to_set() =~= ids.to_set().insert(f.id@));
}

} // verus!
