//! The command line, and the start of a picker session.

use vstd::prelude::*;
use vstd::string::*;

use crate::app::{App, GridView, PickerView, Tab};
use crate::favs::{FavItem, FavsPage};
use crate::grid::PAGE_SIZE;
use crate::item::{fav_items, gif_items, items_of_favs, items_of_gifs, UrlItem};
use crate::pager::{PageFetch, Pager, PagerView};
use crate::providers::{PageCursor, SearchPage, Source};
use crate::text::{blank, is_blank, joined};

verus! {

/// What the program is asked to do.
#[derive(Debug)]
#[allow(inconsistent_fields)]
pub enum Command {
    /// Search and print GIF addresses.
    Search { query: String, source: String, max: usize, json: bool },
    /// List favorites, or copy them between the server and the local store.
    Favs { json: bool, export: bool, import: bool },
    /// Open the picker.
    Tui { query: Option<String>, favs: bool },
}

/// The command line.
#[derive(Debug)]
pub struct Cli {
    /// Without a command the picker opens.
    pub command: Option<Command>,
}

impl Cli {
    /// What is to be done: the command or, without one, the picker.
    pub fn resolve(self) -> (r: Command)
        ensures
            r == (match self.command {
                Some(c) => c,
                None => Command::Tui { query: None, favs: false },
            }),
    {
        match self.command {
            Some(c) => c,
            None => Command::Tui { query: None, favs: false },
        }
    }
}

/// The largest number of results of a search from the command line.
pub const MAX_RESULTS: usize = 100;

/// How many results a search asks for: as many as it was told to, but at least
/// one and at most `MAX_RESULTS`.
pub fn search_limit(max: usize) -> (r: usize)
    ensures
        r == (if max < 1 {
            1
        } else if max > MAX_RESULTS {
            MAX_RESULTS
        } else {
            max
        }),
        1 <= r <= MAX_RESULTS,
{
    if max < 1 {
        1
    } else if max > MAX_RESULTS {
        MAX_RESULTS
    } else {
        max
    }
}

/// Whether a picker session can start: something has to be a terminal.
pub fn check_session(stdin: bool, stdout: bool) -> (r: Result<(), String>)
    ensures
        match r {
            Ok(()) => stdin || stdout,
            Err(e) => {
                &&& !stdin && !stdout
                &&& e@
                    == "stdin/stdout are not terminals; the TUI requires an interactive session"@
            },
        },
{
    if stdin || stdout {
        Ok(())
    } else {
        Err("stdin/stdout are not terminals; the TUI requires an interactive session".to_owned())
    }
}

/// Whether the picker can be drawn: the output has to be a terminal.
pub fn check_output(stdout: bool) -> (r: Result<(), String>)
    ensures
        match r {
            Ok(()) => stdout,
            Err(e) => !stdout && e@
                == "stdout is not a terminal; the TUI requires an interactive session"@,
        },
{
    if stdout {
        Ok(())
    } else {
        Err("stdout is not a terminal; the TUI requires an interactive session".to_owned())
    }
}

/// The first page of a grid.
pub open spec fn first_page(items: Seq<UrlItem>, pager: PagerView) -> GridView {
    GridView { items, selected: 0, first_item: 0, page: 0, pager: Some(pager) }
}

/// The tab on which a session starts.
pub open spec fn start_tab(favs_only: bool) -> Tab {
    if favs_only {
        Tab::Favorites
    } else {
        Tab::Search
    }
}

/// Whether there is a query to run.
pub open spec fn runs(query: Option<String>) -> bool {
    query is Some && !is_blank(query->0@)
}

/// What has to be done next before the picker opens.
#[derive(Debug)]
pub enum Opening {
    /// Fetch the first page of a search.
    Search { fetch: PageFetch },
    /// Fetch the first page of favorites, at most `limit` of them.
    LoadFavorites { limit: usize },
    /// Nothing: the picker can open.
    Open,
}

/// What has to be done once the search is dealt with: the favorites are loaded
/// if the session starts on them.
pub open spec fn after_search(tab: Tab) -> Opening {
    match tab {
        Tab::Favorites => Opening::LoadFavorites { limit: PAGE_SIZE },
        Tab::Search => Opening::Open,
    }
}

/// The next step before the picker opens, given whether favorites are available
/// at all: where they are not, none are loaded.
pub fn next_opening(next: Opening, available: bool) -> (r: Opening)
    ensures
        r == (if next is LoadFavorites && !available {
            Opening::Open
        } else {
            next
        }),
{
    match next {
        Opening::LoadFavorites { limit } => if available {
            Opening::LoadFavorites { limit }
        } else {
            Opening::Open
        },
        other => other,
    }
}

impl<F> PickerView<F> {
    /// The picker once a session started, with the query to run in its search
    /// box or, without one, the box focused.
    pub open spec fn started(self, query: Option<String>, favs_only: bool) -> PickerView<F> {
        if runs(query) {
            PickerView { tab: start_tab(favs_only), query: query->0@, ..self }
        } else {
            PickerView {
                tab: start_tab(favs_only),
                search_focused: if favs_only {
                    self.search_focused
                } else {
                    true
                },
                ..self
            }
        }
    }

    /// The picker once the search that a session started with came in, or did
    /// not.
    pub open spec fn start_searched(
        self,
        q: Seq<char>,
        reply: Result<SearchPage, String>,
    ) -> PickerView<F> {
        match reply {
            Ok(page) => PickerView {
                search: first_page(
                    items_of_gifs(page.results@),
                    PagerView::Search {
                        cfg: self.cfg,
                        source: self.source,
                        query: q,
                        back: seq![PageCursor::Start],
                        next: page.next,
                        total: page.total,
                    },
                ),
                ..self
            },
            Err(e) => self.told("search failed: "@ + e@),
        }
    }
}

/// Whether `fetch` asks for the first page of the query.
pub open spec fn asks_first(fetch: PageFetch, source: Source, query: Seq<char>) -> bool {
    match fetch {
        PageFetch::Search { source: s, query: q, limit, cursor } => {
            &&& s == source
            &&& q@ == query
            &&& limit == PAGE_SIZE
            &&& cursor == PageCursor::Start
        },
        _ => false,
    }
}

impl<F> App<F> {
    /// Which tab the picker opens on.
    pub fn start_on(&mut self, tab: Tab)
        requires
            old(self).wf(),
        ensures
            final(self).wf(),
            final(self)@ == (PickerView { tab, ..old(self)@ }),
    {
        self.tab = tab;
    }

    /// Fills the search box.
    pub fn set_query(&mut self, query: String)
        requires
            old(self).wf(),
        ensures
            final(self).wf(),
            final(self)@ == (PickerView { query: query@, ..old(self)@ }),
    {
        self.query = query;
    }

    /// Sends typing to the search box, or to the keymap.
    pub fn focus_search(&mut self, focused: bool)
        requires
            old(self).wf(),
        ensures
            final(self).wf(),
            final(self)@ == (PickerView { search_focused: focused, ..old(self)@ }),
    {
        self.search_focused = focused;
    }

    /// Shows a message in the footer.
    pub fn set_status(&mut self, message: String)
        requires
            old(self).wf(),
        ensures
            final(self).wf(),
            final(self)@ == old(self)@.told(message@),
    {
        self.status = Some(message);
    }

    /// Says which items are favorites.
    pub fn set_fav_ids(&mut self, ids: Vec<String>)
        requires
            old(self).wf(),
        ensures
            final(self).wf(),
            final(self)@ == (PickerView {
                fav_ids: crate::screen::texts(ids@).to_set(),
                ..old(self)@
            }),
    {
        let ghost all = ids@;
        let ghost names = crate::screen::texts(all);
        let mut set: vstd::hash_set::StringHashSet = vstd::hash_set::StringHashSet::new();
        assert(set@ =~= names.take(0).to_set());
        for id in it: ids
            invariant
                it.seq() == all,
                names == crate::screen::texts(all),
                set@ == names.take(it.index()).to_set(),
        {
            proof {
                let longer = names.take(it.index() + 1);
                assert(longer == names.take(it.index()).push(id@));
                lemma_pushed_set(names.take(it.index()), id@);
            }
            set.insert(id);
        }
        assert(names.take(all.len() as int) == names);
        self.fav_ids = set;
    }

    /// Installs the first page of search results plus its pager.
    pub fn set_search_page(&mut self, items: Vec<UrlItem>, pager: Pager)
        requires
            old(self).wf(),
        ensures
            final(self).wf(),
            final(self)@ == (PickerView {
                search: first_page(items@, pager@),
                ..old(self)@
            }),
    {
        self.search.items = items;
        self.search.pager = Some(pager);
        self.search.page = 0;
        self.search.selected = 0;
        self.search.first_item = 0;
    }

    /// Installs the first page of favorites plus its pager.
    pub fn set_favorites_page(&mut self, items: Vec<UrlItem>, pager: Pager)
        requires
            old(self).wf(),
        ensures
            final(self).wf(),
            final(self)@ == (PickerView {
                favorites: first_page(items@, pager@),
                ..old(self)@
            }),
    {
        self.favorites.items = items;
        self.favorites.pager = Some(pager);
        self.favorites.page = 0;
        self.favorites.selected = 0;
        self.favorites.first_item = 0;
    }

    /// Starts a session: picks the tab and, if there is a query, fills the
    /// search box with it and asks for its first page. Without one, the search
    /// box is focused so that typing works at once.
    pub fn start(&mut self, query: Option<String>, favs_only: bool) -> (r: Option<PageFetch>)
        requires
            old(self).wf(),
        ensures
            final(self).wf(),
            final(self)@ == old(self)@.started(query, favs_only),
            match r {
                Some(fetch) => runs(query) && asks_first(fetch, old(self)@.source, query->0@),
                None => !runs(query),
            },
    {
        let tab: Tab = if favs_only {
            Tab::Favorites
        } else {
            Tab::Search
        };
        self.start_on(tab);
        if let Some(q) = query {
            if !blank(q.as_str()) {
                let fetch: PageFetch = PageFetch::Search {
                    source: self.source,
                    query: q.clone(),
                    limit: PAGE_SIZE,
                    cursor: PageCursor::Start,
                };
                self.set_query(q);
                return Some(fetch);
            }
        }
        if tab == Tab::Search {
            self.focus_search(true);
        }
        None
    }

    /// Takes the first page of the search that a session started with.
    pub fn finish_start_search(&mut self, q: String, reply: Result<SearchPage, String>)
        requires
            old(self).wf(),
        ensures
            final(self).wf(),
            final(self)@ == old(self)@.start_searched(q@, reply),
    {
        match reply {
            Ok(page) => {
                let items: Vec<UrlItem> = gif_items(page.results);
                let pager: Pager = Pager::search(
                    self.cfg.clone(),
                    self.source,
                    q,
                    page.next,
                    page.total,
                );
                self.set_search_page(items, pager);
            },
            Err(e) => {
                self.set_status(joined("search failed: ", e.as_str()));
            },
        }
    }

    /// Takes the first page of the favorites that a session started on.
    pub fn finish_start_favorites(&mut self, reply: Result<FavsPage, String>)
        requires
            old(self).wf(),
        ensures
            final(self).wf(),
            final(self)@ == (match reply {
                Ok(page) => PickerView {
                    favorites: first_page(
                        items_of_favs(page.items@),
                        PagerView::Favs { backend: old(self)@.favs, total: page.total },
                    ),
                    ..old(self)@
                },
                Err(e) => old(self)@.told("favorites load failed: "@ + e@),
            }),
    {
        match reply {
            Ok(page) => {
                let items: Vec<UrlItem> = fav_items(page.items);
                let pager: Pager = Pager::favs(self.favs.clone(), page.total);
                self.set_favorites_page(items, pager);
            },
            Err(e) => {
                self.set_status(joined("favorites load failed: ", e.as_str()));
            },
        }
    }
}

impl<F> App<F> {
    /// Takes the list of favorites, which a session asks for first, and starts
    /// the session. That favorites are unavailable is told in the footer, and
    /// the picker still opens.
    pub fn open_listed(
        &mut self,
        listed: Result<Vec<FavItem>, String>,
        query: Option<String>,
        favs_only: bool,
    ) -> (r: Opening)
        requires
            old(self).wf(),
        ensures
            final(self).wf(),
            final(self)@ == old(self)@.listed(listed).started(query, favs_only),
            match r {
                Opening::Search { fetch } => runs(query) && asks_first(
                    fetch,
                    old(self)@.source,
                    query->0@,
                ),
                next => !runs(query) && next == after_search(start_tab(favs_only)),
            },
    {
        self.finish_favorite_ids(listed);
        match self.start(query, favs_only) {
            Some(fetch) => Opening::Search { fetch },
            None => self.open_next(),
        }
    }

    fn open_next(&self) -> (r: Opening)
        ensures
            r == after_search(self@.tab),
    {
        match self.tab {
            Tab::Favorites => Opening::LoadFavorites { limit: PAGE_SIZE },
            Tab::Search => Opening::Open,
        }
    }

    /// Takes the first page of the search for `q` that a session started with.
    pub fn open_searched(&mut self, q: String, reply: Result<SearchPage, String>) -> (r: Opening)
        requires
            old(self).wf(),
        ensures
            final(self).wf(),
            final(self)@ == old(self)@.start_searched(q@, reply),
            r == after_search(old(self)@.tab),
    {
        self.finish_start_search(q, reply);
        self.open_next()
    }
}

proof fn lemma_pushed_set(s: Seq<Seq<char>>, x: Seq<char>)
    ensures
        s.push(x).to_set() == s.to_set().insert(x),
{
    let t = s.push(x);
    assert forall|y: Seq<char>| #[trigger]
        t.to_set().contains(y) <==> s.to_set().insert(x).contains(y) by {
        if t.contains(y) {
            let i = choose|i: int| 0 <= i < t.len() && t[i] == y;
            if i < s.len() {
                assert(s[i] == y);
            }
        }
        if s.contains(y) {
            let i = choose|i: int| 0 <= i < s.len() && s[i] == y;
            assert(t[i] == y);
        }
        if y == x {
            assert(t[s.len() as int] == y);
        }
    }
    assert(t.to_set() =~= s.to_set().insert(x));
}

} // verus!
