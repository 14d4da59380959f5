//! How a session starts.

use vstd::prelude::*;

use crate::app::{App, PickerView, Tab};
use crate::config::Config;
use crate::favs::{FavItem, FavsBackend, FavsPage};
use crate::grid::PAGE_SIZE;
use crate::item::UrlItem;
use crate::laws::paging::same_fetch;
use crate::laws::work::{shows_fav, shows_gif};
use crate::pager::{PageFetch, Pager};
use crate::providers::{PageCursor, SearchPage, Source};
use crate::session::{Cli, Command, Opening};
use crate::text::is_white_space;

verus! {

/// Whether there is something to search for: a character other than white space.
pub open spec fn has_words(query: Option<String>) -> bool {
    query is Some && exists|i: int|
        0 <= i < query->0@.len() && !is_white_space(#[trigger] query->0@[i])
}

/// A command is carried out as it is given; without one the picker opens, with no
/// query and not on the favorites.
pub proof fn lemma_command(cli: Cli, r: Command)
    requires
        call_ensures(Cli::resolve, (cli,), r),
    ensures
        cli.command is Some ==> r == cli.command->0,
        cli.command is None ==> r is Tui && r->Tui_query is None && !r->favs,
{
}

/// A search asks for as many results as it was told to, within its limits.
pub proof fn lemma_search_limit(max: usize, r: usize)
    requires
        call_ensures(crate::session::search_limit, (max,), r),
    ensures
        1 <= max <= 100 ==> r == max,
        max == 0 ==> r == 1,
        max > 100 ==> r == 100,
{
}

/// A session needs a terminal on either side, and drawing needs one to draw on.
pub proof fn lemma_terminals(
    stdin: bool,
    stdout: bool,
    session: Result<(), String>,
    output: Result<(), String>,
)
    requires
        call_ensures(crate::session::check_session, (stdin, stdout), session),
        call_ensures(crate::session::check_output, (stdout,), output),
    ensures
        session is Ok <==> stdin || stdout,
        output is Ok <==> stdout,
        session is Err ==> session->Err_0@
            == "stdin/stdout are not terminals; the TUI requires an interactive session"@,
        output is Err ==> output->Err_0@
            == "stdout is not a terminal; the TUI requires an interactive session"@,
{
}

/// A new picker is empty and on the Search tab; nothing is queued, picked or told.
pub proof fn lemma_new_picker<F>(cfg: Config, source: Source, favs: FavsBackend, r: App<F>)
    requires
        call_ensures(App::<F>::new, (cfg, source, favs), r),
    ensures
        r.tab == Tab::Search,
        r.search.items@.len() == 0,
        r.favorites.items@.len() == 0,
        r.search.pager is None,
        r.favorites.pager is None,
        r.search.selected == 0 && r.search.first_item == 0 && r.search.page == 0,
        r.favorites.selected == 0 && r.favorites.first_item == 0 && r.favorites.page == 0,
        r.query@.len() == 0,
        !r.search_focused,
        forall|id: Seq<char>| !r.fav_ids@.contains(id),
        r.cfg == cfg,
        r.source == source,
        r.favs == favs,
        !r.should_quit,
        r.selected_url is None,
        r.status is None,
        r.pending is None,
        r@.previews is None,
{
}

/// A session opens on the tab that was asked for. A query is put into the search box
/// and its first page fetched; without one, the search box of the Search tab has the
/// focus.
pub proof fn lemma_session_starts<F>(
    app: &mut App<F>,
    query: Option<String>,
    favs_only: bool,
    r: Option<PageFetch>,
)
    requires
        call_ensures(App::<F>::start, (app, query, favs_only), r),
    ensures
        favs_only ==> final(app).tab == Tab::Favorites,
        !favs_only ==> final(app).tab == Tab::Search,
        has_words(query) ==> {
            &&& final(app).query@ == query->0@
            &&& final(app).search_focused == old(app).search_focused
            &&& r is Some
            &&& r->0 is Search
            &&& r->0->source == old(app).source
            &&& r->0->query@ == query->0@
            &&& r->0->Search_limit == PAGE_SIZE
            &&& r->0->cursor == PageCursor::Start
        },
        !has_words(query) ==> {
            &&& r is None
            &&& final(app).query@ == old(app).query@
            &&& !favs_only ==> final(app).search_focused
            &&& favs_only ==> final(app).search_focused == old(app).search_focused
        },
        final(app)@ == (PickerView {
            tab: final(app).tab,
            query: final(app).query@,
            search_focused: final(app).search_focused,
            ..old(app)@
        }),
{
    if query is Some && !has_words(query) {
        assert forall|i: int| 0 <= i < query->0@.len() implies is_white_space(
            #[trigger] query->0@[i],
        ) by {}
    }
}

/// The favorites that were listed first only add their marks, or a word in the
/// footer; then the session starts. After the search that it asks for, or at once,
/// the favorites are loaded if the session opens on them.
pub proof fn lemma_session_opens<F>(
    a: &mut App<F>,
    b: &mut App<F>,
    c: &mut App<F>,
    listed: Result<Vec<FavItem>, String>,
    query: Option<String>,
    favs_only: bool,
    r: Opening,
    fetch: Option<PageFetch>,
)
    requires
        call_ensures(App::<F>::open_listed, (a, listed, query, favs_only), r),
        old(b)@ == old(a)@,
        call_ensures(App::<F>::finish_favorite_ids, (b, listed), ()),
        old(c)@ == final(b)@,
        call_ensures(App::<F>::start, (c, query, favs_only), fetch),
    ensures
        final(a)@ == final(c)@,
        has_words(query) ==> r is Search && fetch is Some && same_fetch(
            r->fetch,
            fetch->0,
        ),
        !has_words(query) && favs_only ==> r is LoadFavorites && r->limit == PAGE_SIZE,
        !has_words(query) && !favs_only ==> r is Open,
{
    if query is Some && !has_words(query) {
        assert forall|i: int| 0 <= i < query->0@.len() implies is_white_space(
            #[trigger] query->0@[i],
        ) by {}
    }
}

/// Favorites are loaded before the picker opens only where they are available; every
/// other step is taken as it comes.
pub proof fn lemma_unavailable_favorites(next: Opening, available: bool, r: Opening)
    requires
        call_ensures(crate::session::next_opening, (next, available), r),
    ensures
        available || !(next is LoadFavorites) ==> r == next,
        !available && next is LoadFavorites ==> r is Open,
{
}

/// The results of the first search are shown on the Search tab, all of them in order,
/// with a pager that goes on with them; the rest of the picker stays as it is. After
/// it the favorites are loaded if the session opens on them.
pub proof fn lemma_first_search<F>(app: &mut App<F>, q: String, page: SearchPage, r: Opening)
    requires
        call_ensures(App::<F>::open_searched, (app, q, Ok::<SearchPage, String>(page)), r),
    ensures
        final(app).search.items@.len() == page.results@.len(),
        forall|i: int|
            0 <= i < page.results@.len() ==> shows_gif(
                #[trigger] final(app).search.items@[i],
                page.results@[i],
            ),
        final(app).search.selected == 0,
        final(app).search.first_item == 0,
        final(app).search.page == 0,
        final(app).search.pager is Some,
        ({
            let p = final(app).search.pager->0;
            &&& p is Search
            &&& p->cfg == old(app).cfg
            &&& p->source == old(app).source
            &&& p->query@ == q@
            &&& p->back@ == seq![PageCursor::Start]
            &&& p->next == page.next
            &&& p->Search_total == page.total
        }),
        final(app)@ == (PickerView { search: final(app)@.search, ..old(app)@ }),
        old(app).tab == Tab::Favorites ==> r is LoadFavorites && r->limit == PAGE_SIZE,
        old(app).tab == Tab::Search ==> r is Open,
{
}

/// A first search that failed is told in the footer, and the picker opens all the
/// same.
pub proof fn lemma_first_search_fails<F>(app: &mut App<F>, q: String, e: String, r: Opening)
    requires
        call_ensures(App::<F>::open_searched, (app, q, Err::<SearchPage, String>(e)), r),
    ensures
        final(app)@ == (PickerView { status: Some("search failed: "@ + e@), ..old(app)@ }),
        old(app).tab == Tab::Favorites ==> r is LoadFavorites && r->limit == PAGE_SIZE,
        old(app).tab == Tab::Search ==> r is Open,
{
}

/// `finish_start_search` takes the results as that step does.
pub proof fn lemma_first_search_agrees<F>(
    a: &mut App<F>,
    b: &mut App<F>,
    q: String,
    reply: Result<SearchPage, String>,
    r: Opening,
)
    requires
        old(a)@ == old(b)@,
        call_ensures(App::<F>::open_searched, (a, q, reply), r),
        call_ensures(App::<F>::finish_start_search, (b, q, reply), ()),
    ensures
        final(a)@ == final(b)@,
{
}

/// The first page of favorites is shown on their tab, all of them in order, with a
/// pager that goes on at the picker's backend. If it could not be had, the footer
/// says so.
pub proof fn lemma_first_favorites<F>(app: &mut App<F>, reply: Result<FavsPage, String>)
    requires
        call_ensures(App::<F>::finish_start_favorites, (app, reply), ()),
    ensures
        reply is Err ==> final(app)@ == (PickerView {
            status: Some("favorites load failed: "@ + reply->Err_0@),
            ..old(app)@
        }),
        reply is Ok ==> {
            let page = reply->Ok_0;
            let g = final(app).favorites;
            &&& g.items@.len() == page.items@.len()
            &&& forall|i: int|
                0 <= i < page.items@.len() ==> shows_fav(#[trigger] g.items@[i], page.items@[i])
            &&& g.selected == 0
            &&& g.first_item == 0
            &&& g.page == 0
            &&& g.pager is Some
            &&& g.pager->0 is Favs
            &&& g.pager->0->backend == old(app).favs
            &&& g.pager->0->Favs_total == page.total
            &&& final(app)@ == (PickerView { favorites: final(app)@.favorites, ..old(app)@ })
        },
{
}

/// Each setting changes what it is for, and nothing else.
pub proof fn lemma_settings<F>(
    a: &mut App<F>,
    b: &mut App<F>,
    c: &mut App<F>,
    d: &mut App<F>,
    tab: Tab,
    query: String,
    focused: bool,
    message: String,
)
    requires
        call_ensures(App::<F>::start_on, (a, tab), ()),
        call_ensures(App::<F>::set_query, (b, query), ()),
        call_ensures(App::<F>::focus_search, (c, focused), ()),
        call_ensures(App::<F>::set_status, (d, message), ()),
    ensures
        final(a).tab == tab,
        final(a)@ == (PickerView { tab, ..old(a)@ }),
        final(b).query@ == query@,
        final(b)@ == (PickerView { query: query@, ..old(b)@ }),
        final(c).search_focused == focused,
        final(c)@ == (PickerView { search_focused: focused, ..old(c)@ }),
        final(d)@ == (PickerView { status: Some(message@), ..old(d)@ }),
{
}

/// The marks are those that were set, and no others.
pub proof fn lemma_marks_set<F>(app: &mut App<F>, ids: Vec<String>, id: Seq<char>)
    requires
        call_ensures(App::<F>::set_fav_ids, (app, ids), ()),
    ensures
        final(app).fav_ids@.contains(id) <==> exists|i: int|
            0 <= i < ids@.len() && (#[trigger] ids@[i])@ == id,
        final(app)@ == (PickerView { fav_ids: final(app)@.fav_ids, ..old(app)@ }),
{
    let names = crate::screen::texts(ids@);
    if names.contains(id) {
        let i = choose|i: int| 0 <= i < names.len() && names[i] == id;
        assert(ids@[i]@ == id);
    }
    if exists|i: int| 0 <= i < ids@.len() && (#[trigger] ids@[i])@ == id {
        let i = choose|i: int| 0 <= i < ids@.len() && (#[trigger] ids@[i])@ == id;
        assert(names[i] == id);
    }
}

/// A first page is shown from its first item on, with its pager, on its own tab.
pub proof fn lemma_first_pages<F>(
    a: &mut App<F>,
    b: &mut App<F>,
    items: Vec<UrlItem>,
    pager: Pager,
)
    requires
        call_ensures(App::<F>::set_search_page, (a, items, pager), ()),
        call_ensures(App::<F>::set_favorites_page, (b, items, pager), ()),
    ensures
        final(a).search.items@ == items@,
        final(a).search.selected == 0 && final(a).search.first_item == 0 && final(a).search.page
            == 0,
        final(a).search.pager is Some && final(a).search.pager->0@ == pager@,
        final(a)@ == (PickerView { search: final(a)@.search, ..old(a)@ }),
        final(b).favorites.items@ == items@,
        final(b).favorites.selected == 0 && final(b).favorites.first_item == 0
            && final(b).favorites.page == 0,
        final(b).favorites.pager is Some && final(b).favorites.pager->0@ == pager@,
        final(b)@ == (PickerView { favorites: final(b)@.favorites, ..old(b)@ }),
{
}

} // verus!
