//! The picker at work: one queued action, step by step, each step something to
//! be done outside and the reply to it.

use vstd::prelude::*;

use crate::actions::{gif_of, page_offset, Toggle};
use crate::app::{App, Pending, PickerView, Tab};
use crate::favs::{FavItem, FavsPage};
use crate::grid::PAGE_SIZE;
use crate::item::items_of_favs;
use crate::pager::{PageDir, PageFetch, PageReply};
use crate::providers::{PageCursor, SearchPage};
use crate::text::{is_blank, trimmed};

verus! {

/// Something to be done outside.
#[derive(Debug)]
pub enum Effect {
    /// Fetch the neighbor page of the active grid.
    TurnPage { dir: PageDir, fetch: PageFetch },
    /// Fetch the first page of a search.
    Search { fetch: PageFetch },
    /// Save or remove a favorite.
    Toggle { toggle: Toggle },
    /// Fetch a page of favorites again, at most `limit` from `offset` on.
    RefreshFavorites { page: usize, limit: usize, offset: usize },
    /// List all favorites.
    ListFavorites,
    /// Fetch the first page of favorites, at most `limit` of them.
    LoadFavorites { limit: usize },
    /// Put the GIF at the address on the clipboard.
    CopyGif { url: String },
    /// Put the address on the clipboard.
    CopyUrl { url: String },
}

/// What came of something that was done outside.
#[derive(Debug)]
pub enum Reply {
    Page(Result<PageReply, String>),
    Search(Result<SearchPage, String>),
    Done(Result<(), String>),
    Favorites(Result<FavsPage, String>),
    Listed(Result<Vec<FavItem>, String>),
}

/// Whether `e` asks for the page of favorites with the given number.
pub open spec fn refreshes(e: Option<Effect>, page: int) -> bool {
    match e {
        Some(Effect::RefreshFavorites { page: p, limit, offset }) => {
            &&& p == page
            &&& limit == PAGE_SIZE
            &&& offset == page * PAGE_SIZE
        },
        _ => false,
    }
}

impl<F> PickerView<F> {
    /// Where queued work turns a page, that page can be counted.
    pub open spec fn can_begin(self, work: Pending) -> bool {
        work is Page ==> self.grid().turn_countable()
    }

    /// The pages that a reply leads to can be counted: the neighbor page after a
    /// turn, and the items before a page of favorites that is fetched again.
    pub open spec fn can_take(self, done: Effect) -> bool {
        match done {
            Effect::TurnPage { .. } => self.grid().page < usize::MAX,
            Effect::Toggle { .. } => self.tab == Tab::Favorites ==> self.favorites.page
                <= usize::MAX / PAGE_SIZE,
            Effect::RefreshFavorites { page, .. } => page <= usize::MAX / PAGE_SIZE,
            _ => true,
        }
    }

    /// The picker once queued work has begun.
    pub open spec fn work_begun(self, work: Pending) -> PickerView<F> {
        match work {
            Pending::Page(dir) => match self.grid().pager {
                Some(p) if p.refuses(dir, self.grid().page) is Some => self.refused(
                    p.refuses(dir, self.grid().page)->0,
                ),
                _ => self,
            },
            Pending::Search => if is_blank(self.query) {
                self.told("type a query, then Enter"@)
            } else {
                self
            },
            _ => self,
        }
    }

    /// Whether `e` is what has to be done outside as queued work begins.
    pub open spec fn begins_with(self, work: Pending, e: Option<Effect>) -> bool {
        let item = self.grid().active();
        match (work, e) {
            (Pending::Page(dir), None) => match self.grid().pager {
                Some(p) => p.refuses(dir, self.grid().page) is Some,
                None => true,
            },
            (Pending::Page(dir), Some(Effect::TurnPage { dir: d, fetch })) => {
                &&& d == dir
                &&& self.grid().pager is Some
                &&& self.grid().pager->0.refuses(dir, self.grid().page) is None
                &&& self.grid().pager->0.asks(dir, self.grid().page, fetch)
            },
            (Pending::Search, None) => is_blank(self.query),
            (
                Pending::Search,
                Some(Effect::Search { fetch: PageFetch::Search { source, query, limit, cursor } }),
            ) => {
                &&& !is_blank(self.query)
                &&& source == self.source
                &&& query@ == trimmed(self.query)
                &&& limit == PAGE_SIZE
                &&& cursor == PageCursor::Start
            },
            (Pending::Toggle, None) => item is None,
            (Pending::Toggle, Some(Effect::Toggle { toggle: Toggle::Delete(id) })) => {
                &&& item is Some
                &&& id == item->0.id
                &&& self.fav_ids.contains(id@)
            },
            (Pending::Toggle, Some(Effect::Toggle { toggle: Toggle::Save(gif) })) => {
                &&& item is Some
                &&& gif == gif_of(item->0)
                &&& !self.fav_ids.contains(gif.id@)
            },
            (Pending::CopyGif, None) => item is None,
            (Pending::CopyGif, Some(Effect::CopyGif { url })) => item is Some && url
                == item->0.url,
            (Pending::CopyUrl, None) => item is None,
            (Pending::CopyUrl, Some(Effect::CopyUrl { url })) => item is Some && url
                == item->0.url,
            (Pending::TabLoad, Some(Effect::ListFavorites)) => true,
            _ => false,
        }
    }

    /// The picker with the outcome of a copy told.
    pub open spec fn copied(self, what: Seq<char>, result: Result<(), String>) -> PickerView<F> {
        match result {
            Ok(()) => self.told(what),
            Err(e) => self.told("copy failed: "@ + e@),
        }
    }

    /// The picker once the list of favorites came in, or did not.
    pub open spec fn listed(self, listed: Result<Vec<FavItem>, String>) -> PickerView<F> {
        match listed {
            Ok(items) => PickerView { fav_ids: crate::actions::ids_of(items@), ..self },
            Err(e) => self.told("favorites unavailable: "@ + e@),
        }
    }

    /// The picker once the reply to something that was done outside came in. A
    /// reply to something else changes nothing.
    pub open spec fn replied(self, done: Effect, reply: Reply) -> PickerView<F> {
        match (done, reply) {
            (Effect::TurnPage { dir, .. }, Reply::Page(page)) => self.page_finished(dir, page),
            (
                Effect::Search { fetch: PageFetch::Search { query, .. } },
                Reply::Search(page),
            ) => self.search_finished(query@, page),
            (Effect::Toggle { .. }, Reply::Done(Err(e))) => self.told("favorite failed: "@ + e@),
            (Effect::Toggle { toggle: Toggle::Delete(id) }, Reply::Done(Ok(()))) => self.toggled(
                id@,
                true,
            ),
            (Effect::Toggle { toggle: Toggle::Save(gif) }, Reply::Done(Ok(()))) => self.toggled(
                gif.id@,
                false,
            ),
            (Effect::RefreshFavorites { page, .. }, Reply::Favorites(Ok(p))) => if p.items@.len()
                == 0 && page > 0 {
                self
            } else {
                self.refreshed(page as int, items_of_favs(p.items@), p.total)
            },
            (Effect::ListFavorites, Reply::Listed(listed)) => if self.wants_favorites() {
                self.listed(listed)
            } else {
                self.listed(listed).without_previews()
            },
            (Effect::LoadFavorites { .. }, Reply::Favorites(page)) => (
            if self.wants_favorites() {
                self.favorites_loaded(page)
            } else {
                self
            }).without_previews(),
            (Effect::CopyGif { .. }, Reply::Done(result)) => self.copied(
                "copied GIF to clipboard"@,
                result,
            ),
            (Effect::CopyUrl { .. }, Reply::Done(result)) => self.copied("copied URL"@, result),
            _ => self,
        }
    }

    /// Whether `e` is what has to be done next, after that reply: the favorites
    /// page is fetched again after a toggle on its tab, and the page before it
    /// as long as it is empty; and it is loaded when its tab is shown for the
    /// first time.
    pub open spec fn follows(self, done: Effect, reply: Reply, e: Option<Effect>) -> bool {
        match (done, reply) {
            (Effect::Toggle { .. }, Reply::Done(Ok(()))) => if self.tab == Tab::Favorites {
                refreshes(e, self.favorites.page)
            } else {
                e is None
            },
            (Effect::RefreshFavorites { page, .. }, Reply::Favorites(Ok(p))) => if p.items@.len()
                == 0 && page > 0 {
                refreshes(e, page - 1)
            } else {
                e is None
            },
            (Effect::ListFavorites, Reply::Listed(_)) => if self.wants_favorites() {
                e == Some(Effect::LoadFavorites { limit: PAGE_SIZE })
            } else {
                e is None
            },
            _ => e is None,
        }
    }
}

impl<F> App<F> {
    /// Begins queued work: what has to be done outside, if anything.
    pub fn begin_work(&mut self, work: Pending) -> (r: Option<Effect>)
        requires
            old(self).wf(),
            old(self)@.can_begin(work),
        ensures
            final(self).wf(),
            final(self)@ == old(self)@.work_begun(work),
            old(self)@.begins_with(work, r),
    {
        match work {
            Pending::Page(dir) => match self.begin_page(dir) {
                Some(fetch) => Some(Effect::TurnPage { dir, fetch }),
                None => None,
            },
            Pending::Search => match self.begin_search() {
                Some(fetch) => Some(Effect::Search { fetch }),
                None => None,
            },
            Pending::Toggle => match self.begin_toggle() {
                Some(toggle) => Some(Effect::Toggle { toggle }),
                None => None,
            },
            Pending::CopyGif => match self.begin_copy() {
                Some(url) => Some(Effect::CopyGif { url }),
                None => None,
            },
            Pending::CopyUrl => match self.begin_copy() {
                Some(url) => Some(Effect::CopyUrl { url }),
                None => None,
            },
            Pending::TabLoad => Some(Effect::ListFavorites),
        }
    }

    fn refresh_of(page: usize) -> (r: Effect)
        requires
            page <= usize::MAX / PAGE_SIZE,
        ensures
            refreshes(Some(r), page as int),
    {
        Effect::RefreshFavorites { page, limit: PAGE_SIZE, offset: page_offset(page) }
    }

    /// Takes the reply to something that was done outside: what has to be done
    /// next, if anything.
    pub fn take_reply(&mut self, done: Effect, reply: Reply) -> (r: Option<Effect>)
        requires
            old(self).wf(),
            old(self)@.can_take(done),
        ensures
            final(self).wf(),
            final(self)@ == old(self)@.replied(done, reply),
            old(self)@.follows(done, reply, r),
    {
        match (done, reply) {
            (Effect::TurnPage { dir, .. }, Reply::Page(page)) => {
                self.finish_page(dir, page);
                None
            },
            (Effect::Search { fetch: PageFetch::Search { query, .. } }, Reply::Search(page)) => {
                self.finish_search(query, page);
                None
            },
            (Effect::Toggle { toggle }, Reply::Done(result)) => {
                if self.finish_toggle(toggle, result) {
                    Some(Self::refresh_of(self.favorites.page))
                } else {
                    None
                }
            },
            (Effect::RefreshFavorites { page, .. }, Reply::Favorites(fetched)) => {
                match self.refresh_favorites_page(page, fetched) {
                    Some(before) => Some(Self::refresh_of(before)),
                    None => None,
                }
            },
            (Effect::ListFavorites, Reply::Listed(listed)) => {
                let wanted: bool = self.wants_favorites();
                self.finish_favorite_ids(listed);
                if wanted {
                    Some(Effect::LoadFavorites { limit: PAGE_SIZE })
                } else {
                    self.finish_tab_load(None);
                    None
                }
            },
            (Effect::LoadFavorites { .. }, Reply::Favorites(page)) => {
                self.finish_tab_load(Some(page));
                None
            },
            (Effect::CopyGif { .. }, Reply::Done(result)) => {
                self.finish_copy_gif(result);
                None
            },
            (Effect::CopyUrl { .. }, Reply::Done(result)) => {
                self.finish_copy_url(result);
                None
            },
            _ => None,
        }
    }
}

/// How many steps may still follow: work comes to an end.
pub open spec fn steps_left(e: Option<Effect>, favorites_page: int) -> int {
    match e {
        None => 0,
        Some(Effect::RefreshFavorites { page, .. }) => page + 1,
        Some(Effect::Toggle { .. }) => favorites_page + 2,
        Some(Effect::ListFavorites) => 2,
        Some(_) => 1,
    }
}

/// Whatever the replies are, each step of a piece of work leaves fewer to come.
pub proof fn lemma_work_ends<F>(
    v: PickerView<F>,
    done: Effect,
    reply: Reply,
    next: Option<Effect>,
)
    requires
        v.favorites.page >= 0,
        v.follows(done, reply, next),
    ensures
        0 <= steps_left(next, v.replied(done, reply).favorites.page) < steps_left(
            Some(done),
            v.favorites.page,
        ),
{
}

} // verus!
