//! What queued work asks for, and what its outcome changes: searching, toggling
//! favorites, copying, and loading a tab.

use vstd::prelude::*;

use crate::actions::Toggle;
use crate::app::{App, GridView, Pending, PickerView, Tab};
use crate::favs::{FavItem, FavsPage};
use crate::grid::PAGE_SIZE;
use crate::item::UrlItem;
use crate::laws::keys::{item_of, on_item, shown};
use crate::laws::paging::same_fetch;
use crate::pager::PageFetch;
use crate::providers::{provider_named, GifResult, PageCursor, SearchPage};
use crate::text::{decimal, is_white_space};
use crate::work::{Effect, Reply};

verus! {

/// Whether no preview is left of those that were cached, and the rest of the cache
/// is as it was.
pub open spec fn previews_dropped<F>(a: App<F>, b: App<F>) -> bool {
    &&& a@.previews is None ==> b@.previews is None
    &&& a@.previews is Some ==> {
        &&& b@.previews is Some
        &&& b@.previews->0.entries.len() == 0
        &&& b@.previews->0.cap == a@.previews->0.cap
    }
}

/// Whether an item of the grid shows a search result.
pub open spec fn shows_gif(item: UrlItem, gif: GifResult) -> bool {
    &&& item.id == gif.id
    &&& item.url == gif.url
    &&& item.preview_url == gif.preview_url
    &&& item.provider == gif.provider
    &&& gif.title@.len() > 0 ==> item.title == gif.title
    &&& gif.title@.len() == 0 ==> item.title == gif.id
}

/// Whether an item of the grid shows a favorite.
pub open spec fn shows_fav(item: UrlItem, fav: FavItem) -> bool {
    &&& item.id == fav.id
    &&& item.url == fav.url
    &&& item.preview_url == fav.preview
    &&& item.provider == provider_named(fav.provider@)
    &&& fav.title@.len() > 0 ==> item.title == fav.title
    &&& fav.title@.len() == 0 ==> item.title == fav.id
}

/// Queued work is taken once, and the footer tells what takes a while.
pub proof fn lemma_work_is_taken<F>(
    app: &mut App<F>,
    r: Option<Pending>,
    query: &str,
    bare: String,
)
    requires
        call_ensures(App::<F>::begin_pending, (app,), r),
        query@ == old(app).query@,
        call_ensures(crate::text::trim, (query,), bare),
    ensures
        r == old(app).pending,
        final(app).pending is None,
        final(app)@ == (PickerView { pending: None, status: final(app)@.status, ..old(app)@ }),
        match r {
            Some(Pending::Page(_)) => final(app)@.status == Some("loading…"@),
            Some(Pending::Search) => final(app)@.status == Some("searching '"@ + bare@ + "'…"@),
            Some(Pending::CopyGif) => final(app)@.status == Some("copying gif…"@),
            _ => final(app)@.status == old(app)@.status,
        },
{
}

/// What is announced is just the work that the footer tells of: the footer of a
/// picker changes when work begins if and only if it is announced, as far as it did
/// not say so before.
pub proof fn lemma_announced_work_is_told<F>(
    app: &mut App<F>,
    r: Option<Pending>,
    work: Pending,
    told: bool,
)
    requires
        call_ensures(App::<F>::begin_pending, (app,), r),
        r == Some(work),
        old(app).status is None,
        call_ensures(crate::actions::announced, (work,), told),
    ensures
        told <==> final(app).status is Some,
{
}

/// A search asks the picker's source for the first page of the query, without the
/// white space around it. A query that is nothing but white space is not searched
/// for, and the footer asks for one.
pub proof fn lemma_search_begins<F>(
    app: &mut App<F>,
    r: Option<PageFetch>,
    query: &str,
    bare: String,
)
    requires
        call_ensures(App::<F>::begin_search, (app,), r),
        query@ == old(app).query@,
        call_ensures(crate::text::trim, (query,), bare),
    ensures
        (exists|i: int| 0 <= i < old(app).query@.len() && !is_white_space(old(app).query@[i])) ==> {
            &&& r is Some
            &&& r->0 is Search
            &&& r->0->source == old(app).source
            &&& r->0->query@ == bare@
            &&& r->0->Search_limit == PAGE_SIZE
            &&& r->0->cursor == PageCursor::Start
            &&& final(app)@ == old(app)@
        },
        (forall|i: int| 0 <= i < old(app).query@.len() ==> is_white_space(old(app).query@[i])) ==> {
            &&& r is None
            &&& final(app)@ == (PickerView {
                status: Some("type a query, then Enter"@),
                ..old(app)@
            })
        },
{
}

/// The work that Enter queues in the search box is the search.
pub proof fn lemma_search_work<F>(
    a: &mut App<F>,
    b: &mut App<F>,
    e: Option<Effect>,
    r: Option<PageFetch>,
)
    requires
        old(a)@ == old(b)@,
        call_ensures(App::<F>::begin_work, (a, Pending::Search), e),
        call_ensures(App::<F>::begin_search, (b,), r),
    ensures
        e is Some <==> r is Some,
        e is Some ==> e->0 is Search && same_fetch(e->0->Search_fetch, r->0),
        final(a)@ == final(b)@,
{
}

/// A search that failed is told in the footer, and the old results stay.
pub proof fn lemma_search_fails<F>(app: &mut App<F>, q: String, e: String)
    requires
        call_ensures(App::<F>::finish_search, (app, q, Err::<SearchPage, String>(e)), ()),
    ensures
        final(app)@ == (PickerView { status: Some("search failed: "@ + e@), ..old(app)@ }),
{
}

/// The results of a search are shown on the Search tab, all of them in order, from
/// the first page and the first item on; the footer counts them. The favorites stay
/// as they are.
pub proof fn lemma_search_arrives<F>(app: &mut App<F>, q: String, page: SearchPage)
    requires
        call_ensures(App::<F>::finish_search, (app, q, Ok::<SearchPage, String>(page)), ()),
    ensures
        final(app).tab == Tab::Search,
        final(app).search.items@.len() == page.results@.len(),
        forall|i: int|
            0 <= i < page.results@.len() ==> shows_gif(
                #[trigger] final(app).search.items@[i],
                page.results@[i],
            ),
        final(app).search.selected == 0,
        final(app).search.first_item == 0,
        final(app).search.page == 0,
        page.results@.len() == 0 ==> final(app)@.status == Some("no results"@),
        page.results@.len() > 0 ==> final(app)@.status == Some(
            decimal(page.results@.len()) + " results"@,
        ),
        final(app)@.favorites == old(app)@.favorites,
        previews_dropped(*old(app), *final(app)),
        final(app)@ == (PickerView {
            tab: Tab::Search,
            search: final(app)@.search,
            status: final(app)@.status,
            previews: final(app)@.previews,
            ..old(app)@
        }),
{
}

/// The pager of a search goes on with the query that was searched for, where the
/// first page ends.
pub proof fn lemma_search_pager<F>(app: &mut App<F>, q: String, page: SearchPage)
    requires
        call_ensures(App::<F>::finish_search, (app, q, Ok::<SearchPage, String>(page)), ()),
    ensures
        final(app).search.pager is Some,
        ({
            let p = final(app).search.pager->0;
            &&& p is Search
            &&& p->cfg == old(app).cfg
            &&& p->source == old(app).source
            &&& p->query@ == q@
            &&& p->back@ == seq![PageCursor::Start]
            &&& p->next == page.next
            &&& p->Search_total == page.total
        }),
{
}

/// What a search brought is taken for the query that was asked for.
pub proof fn lemma_search_reply<F>(
    a: &mut App<F>,
    b: &mut App<F>,
    fetch: PageFetch,
    q: String,
    reply: Result<SearchPage, String>,
    r: Option<Effect>,
)
    requires
        old(a)@ == old(b)@,
        fetch is Search,
        q@ == fetch->query@,
        call_ensures(App::<F>::take_reply, (a, Effect::Search { fetch }, Reply::Search(reply)), r),
        call_ensures(App::<F>::finish_search, (b, q, reply), ()),
    ensures
        r is None,
        final(a)@ == final(b)@,
{
}

/// What v does with the GIF at the cursor: one that is a favorite is removed by its
/// id, and one that is not is saved as it is shown, with its id, title, addresses and
/// provider. With nothing at the cursor there is nothing to do.
pub proof fn lemma_toggle_takes_the_item<F>(app: App<F>, r: Option<Toggle>)
    requires
        call_ensures(App::<F>::begin_toggle, (&app,), r),
    ensures
        r is Some <==> on_item(app),
        on_item(app) && app.fav_ids@.contains(item_of(app).id@) ==> r->0 is Delete
            && r->0->Delete_0 == item_of(app).id,
        on_item(app) && !app.fav_ids@.contains(item_of(app).id@) ==> {
            &&& r->0 is Save
            &&& r->0->Save_0.id == item_of(app).id
            &&& r->0->Save_0.title == item_of(app).title
            &&& r->0->Save_0.url == item_of(app).url
            &&& r->0->Save_0.preview_url == item_of(app).preview_url
            &&& r->0->Save_0.provider == item_of(app).provider
        },
{
}

/// The work that v queues is that toggle.
pub proof fn lemma_toggle_work<F>(app: &mut App<F>, e: Option<Effect>)
    requires
        call_ensures(App::<F>::begin_work, (app, Pending::Toggle), e),
    ensures
        final(app)@ == old(app)@,
        e is Some <==> on_item(*old(app)),
        on_item(*old(app)) ==> e->0 is Toggle,
        on_item(*old(app)) && old(app).fav_ids@.contains(item_of(*old(app)).id@)
            ==> e->0->toggle is Delete && e->0->toggle->Delete_0 == item_of(*old(app)).id,
        on_item(*old(app)) && !old(app).fav_ids@.contains(item_of(*old(app)).id@) ==> {
            &&& e->0->toggle is Save
            &&& e->0->toggle->Save_0.id == item_of(*old(app)).id
            &&& e->0->toggle->Save_0.title == item_of(*old(app)).title
            &&& e->0->toggle->Save_0.url == item_of(*old(app)).url
            &&& e->0->toggle->Save_0.preview_url == item_of(*old(app)).preview_url
            &&& e->0->toggle->Save_0.provider == item_of(*old(app)).provider
        },
{
}

/// What is saved shows as the same item again, unless it had no title.
pub proof fn lemma_saved_item_shows_again<F>(app: App<F>, r: Option<Toggle>, again: UrlItem)
    requires
        call_ensures(App::<F>::begin_toggle, (&app,), r),
        r is Some,
        r->0 is Save,
        call_ensures(<UrlItem as From<GifResult>>::from, (r->0->Save_0,), again),
        item_of(app).title@.len() > 0,
    ensures
        again == item_of(app),
{
}

/// A toggle that failed is told in the footer and changes nothing else; nothing is
/// fetched again.
pub proof fn lemma_toggle_fails<F>(app: &mut App<F>, toggle: Toggle, e: String, r: bool)
    requires
        call_ensures(App::<F>::finish_toggle, (app, toggle, Err::<(), String>(e)), r),
    ensures
        !r,
        final(app)@ == (PickerView { status: Some("favorite failed: "@ + e@), ..old(app)@ }),
{
}

/// A favorite that was saved is marked as one from then on, and no other mark
/// changes. The footer says where it was saved, and favorites that are on screen are
/// fetched again.
pub proof fn lemma_saved_is_marked<F>(app: &mut App<F>, gif: GifResult, r: bool, id: Seq<char>)
    requires
        call_ensures(App::<F>::finish_toggle, (app, Toggle::Save(gif), Ok::<(), String>(())), r),
    ensures
        r <==> old(app).tab == Tab::Favorites,
        final(app).fav_ids@.contains(id) <==> old(app).fav_ids@.contains(id) || id == gif.id@,
        old(app).favs is Local ==> final(app)@.status == Some("★ saved to local favorites"@),
        old(app).favs is Server ==> final(app)@.status == Some("★ saved to favorites"@),
        final(app)@ == (PickerView {
            fav_ids: final(app)@.fav_ids,
            status: final(app)@.status,
            ..old(app)@
        }),
{
}

/// A favorite that was removed is no longer marked as one, and no other mark
/// changes.
pub proof fn lemma_removed_is_unmarked<F>(app: &mut App<F>, gone: String, r: bool, id: Seq<char>)
    requires
        call_ensures(App::<F>::finish_toggle, (app, Toggle::Delete(gone), Ok::<(), String>(())), r),
    ensures
        r <==> old(app).tab == Tab::Favorites,
        final(app).fav_ids@.contains(id) <==> old(app).fav_ids@.contains(id) && id != gone@,
        old(app).favs is Local ==> final(app)@.status == Some("☆ removed from local favorites"@),
        old(app).favs is Server ==> final(app)@.status == Some("☆ removed from favorites"@),
        final(app)@ == (PickerView {
            fav_ids: final(app)@.fav_ids,
            status: final(app)@.status,
            ..old(app)@
        }),
{
}

/// After a toggle, the page of favorites that is on screen is fetched again.
pub proof fn lemma_toggle_reply<F>(
    a: &mut App<F>,
    b: &mut App<F>,
    toggle: Toggle,
    result: Result<(), String>,
    next: Option<Effect>,
    again: bool,
)
    requires
        old(a)@ == old(b)@,
        call_ensures(App::<F>::take_reply, (a, Effect::Toggle { toggle }, Reply::Done(result)), next),
        call_ensures(App::<F>::finish_toggle, (b, toggle, result), again),
    ensures
        final(a)@ == final(b)@,
        !again ==> next is None,
        again ==> {
            &&& next is Some
            &&& next->0 is RefreshFavorites
            &&& next->0->page == old(a).favorites.page
            &&& next->0->RefreshFavorites_limit == PAGE_SIZE
            &&& next->0->offset == old(a).favorites.page * PAGE_SIZE
        },
{
}

/// A page of favorites that was fetched again replaces the one on screen, favorite
/// by favorite. The cursor stays where it is or, if there is no item there any more,
/// goes to the last one.
pub proof fn lemma_refresh_shows_the_page<F>(
    app: &mut App<F>,
    page: usize,
    fetched: FavsPage,
    r: Option<usize>,
)
    requires
        call_ensures(
            App::<F>::refresh_favorites_page,
            (app, page, Ok::<FavsPage, String>(fetched)),
            r,
        ),
        fetched.items@.len() > 0 || page == 0,
    ensures
        r is None,
        final(app).favorites.page == page,
        final(app).favorites.first_item == 0,
        final(app).favorites.items@.len() == fetched.items@.len(),
        forall|i: int|
            0 <= i < fetched.items@.len() ==> shows_fav(
                #[trigger] final(app).favorites.items@[i],
                fetched.items@[i],
            ),
        fetched.items@.len() == 0 ==> final(app).favorites.selected == 0,
        old(app).favorites.selected < fetched.items@.len() ==> final(app).favorites.selected
            == old(app).favorites.selected,
        0 < fetched.items@.len() <= old(app).favorites.selected ==> final(app).favorites.selected
            == fetched.items@.len() - 1,
        old(app).favorites.pager is None ==> final(app).favorites.pager is None,
        final(app)@ == (PickerView { favorites: final(app)@.favorites, ..old(app)@ }),
{
}

/// A pager of favorites takes note of the total that came with the page.
pub proof fn lemma_refresh_notes_the_total<F>(
    app: &mut App<F>,
    page: usize,
    fetched: FavsPage,
    r: Option<usize>,
)
    requires
        call_ensures(
            App::<F>::refresh_favorites_page,
            (app, page, Ok::<FavsPage, String>(fetched)),
            r,
        ),
        fetched.items@.len() > 0 || page == 0,
        old(app).favorites.pager is Some,
        old(app).favorites.pager->0 is Favs,
    ensures
        final(app).favorites.pager is Some,
        final(app).favorites.pager->0 is Favs,
        final(app).favorites.pager->0->backend == old(app).favorites.pager->0->backend,
        fetched.total is Some ==> final(app).favorites.pager->0->Favs_total == fetched.total,
        fetched.total is None ==> final(app).favorites.pager->0->Favs_total
            == old(app).favorites.pager->0->Favs_total,
{
}

/// A page that emptied out gives way to the one before it, which is fetched in its
/// place; meanwhile nothing changes. A failed fetch changes nothing and ends there.
pub proof fn lemma_refresh_goes_back<F>(
    app: &mut App<F>,
    page: usize,
    fetched: Result<FavsPage, String>,
    r: Option<usize>,
)
    requires
        call_ensures(App::<F>::refresh_favorites_page, (app, page, fetched), r),
        fetched is Err || (fetched->Ok_0.items@.len() == 0 && page > 0),
    ensures
        final(app)@ == old(app)@,
        fetched is Err ==> r is None,
        fetched is Ok ==> r is Some && r->0 + 1 == page,
{
}

/// What fetching a page of favorites again brought is taken as
/// `refresh_favorites_page` takes it, and what that asks for is fetched next.
pub proof fn lemma_refresh_reply<F>(
    a: &mut App<F>,
    b: &mut App<F>,
    page: usize,
    limit: usize,
    offset: usize,
    fetched: Result<FavsPage, String>,
    next: Option<Effect>,
    before: Option<usize>,
)
    requires
        old(a)@ == old(b)@,
        call_ensures(
            App::<F>::take_reply,
            (a, Effect::RefreshFavorites { page, limit, offset }, Reply::Favorites(fetched)),
            next,
        ),
        call_ensures(App::<F>::refresh_favorites_page, (b, page, fetched), before),
    ensures
        final(a)@ == final(b)@,
        before is None ==> next is None,
        before is Some ==> {
            &&& next is Some
            &&& next->0 is RefreshFavorites
            &&& next->0->page == before->0
            &&& next->0->RefreshFavorites_limit == PAGE_SIZE
            &&& next->0->offset == before->0 * PAGE_SIZE
        },
{
}

/// What c and y copy is the GIF at the cursor by its own address: the one downloads
/// what is there, the other puts the address itself on the clipboard. With nothing at
/// the cursor nothing is copied.
pub proof fn lemma_copies_the_gif<F>(
    a: &mut App<F>,
    b: &mut App<F>,
    gif: Option<Effect>,
    url: Option<Effect>,
)
    requires
        old(a)@ == old(b)@,
        call_ensures(App::<F>::begin_work, (a, Pending::CopyGif), gif),
        call_ensures(App::<F>::begin_work, (b, Pending::CopyUrl), url),
    ensures
        gif is Some <==> on_item(*old(a)),
        url is Some <==> on_item(*old(a)),
        on_item(*old(a)) ==> {
            &&& gif->0 is CopyGif
            &&& gif->0->CopyGif_url@ == item_of(*old(a)).url@
            &&& url->0 is CopyUrl
            &&& url->0->CopyUrl_url@ == item_of(*old(a)).url@
        },
        final(a)@ == old(a)@,
        final(b)@ == old(b)@,
{
}

/// What is copied is what Enter would pick.
pub proof fn lemma_copies_what_is_picked<F>(
    a: &mut App<F>,
    b: &mut App<F>,
    key: crate::keys::KeyEvent,
    url: Option<Effect>,
)
    requires
        old(a)@ == old(b)@,
        !old(a).search_focused,
        key.code == crate::keys::KeyCode::Enter,
        call_ensures(App::<F>::handle_key, (a, key), ()),
        call_ensures(App::<F>::begin_work, (b, Pending::CopyUrl), url),
        url is Some,
    ensures
        url->0 is CopyUrl,
        final(a).selected_url is Some,
        final(a).selected_url->0@ == url->0->CopyUrl_url@,
{
}

/// `begin_copy` hands out the address of the GIF at the cursor.
pub proof fn lemma_copy_address<F>(app: App<F>, r: Option<String>)
    requires
        call_ensures(App::<F>::begin_copy, (&app,), r),
    ensures
        r is Some <==> on_item(app),
        r is Some ==> r->0 == item_of(app).url,
{
}

/// Whether a copy succeeded is told in the footer, for the GIF and for its address,
/// and nothing else changes.
pub proof fn lemma_copy_is_told<F>(
    a: &mut App<F>,
    b: &mut App<F>,
    result: Result<(), String>,
)
    requires
        call_ensures(App::<F>::finish_copy_gif, (a, result), ()),
        call_ensures(App::<F>::finish_copy_url, (b, result), ()),
    ensures
        result is Ok ==> final(a)@ == (PickerView {
            status: Some("copied GIF to clipboard"@),
            ..old(a)@
        }),
        result is Ok ==> final(b)@ == (PickerView { status: Some("copied URL"@), ..old(b)@ }),
        result is Err ==> final(a)@ == (PickerView {
            status: Some("copy failed: "@ + result->Err_0@),
            ..old(a)@
        }),
        result is Err ==> final(b)@ == (PickerView {
            status: Some("copy failed: "@ + result->Err_0@),
            ..old(b)@
        }),
{
}

/// The outcome of a copy ends its work.
pub proof fn lemma_copy_replies<F>(
    a: &mut App<F>,
    b: &mut App<F>,
    url: String,
    result: Result<(), String>,
    r: Option<Effect>,
    s: Option<Effect>,
)
    requires
        call_ensures(App::<F>::take_reply, (a, Effect::CopyGif { url }, Reply::Done(result)), r),
        call_ensures(App::<F>::take_reply, (b, Effect::CopyUrl { url }, Reply::Done(result)), s),
    ensures
        r is None,
        s is None,
        result is Ok ==> final(a)@ == (PickerView {
            status: Some("copied GIF to clipboard"@),
            ..old(a)@
        }),
        result is Ok ==> final(b)@ == (PickerView { status: Some("copied URL"@), ..old(b)@ }),
        result is Err ==> final(a)@ == (PickerView {
            status: Some("copy failed: "@ + result->Err_0@),
            ..old(a)@
        }),
        result is Err ==> final(b)@ == (PickerView {
            status: Some("copy failed: "@ + result->Err_0@),
            ..old(b)@
        }),
{
}

/// The marks are those of the favorites that were listed, and of no others. A list
/// that could not be had is told in the footer, and the marks stay.
pub proof fn lemma_listed_are_marked<F>(
    app: &mut App<F>,
    listed: Result<Vec<FavItem>, String>,
    id: Seq<char>,
)
    requires
        call_ensures(App::<F>::finish_favorite_ids, (app, listed), ()),
    ensures
        listed is Ok ==> {
            &&& final(app).fav_ids@.contains(id) <==> exists|i: int|
                0 <= i < listed->Ok_0@.len() && (#[trigger] listed->Ok_0@[i]).id@ == id
            &&& final(app)@ == (PickerView { fav_ids: final(app)@.fav_ids, ..old(app)@ })
        },
        listed is Err ==> final(app)@ == (PickerView {
            status: Some("favorites unavailable: "@ + listed->Err_0@),
            ..old(app)@
        }),
{
    if listed is Ok {
        let items = listed->Ok_0@;
        let ids = items.map_values(|f: FavItem| f.id@);
        if ids.contains(id) {
            let i = choose|i: int| 0 <= i < ids.len() && ids[i] == id;
            assert(items[i].id@ == id);
        }
        if exists|i: int| 0 <= i < items.len() && (#[trigger] items[i]).id@ == id {
            let i = choose|i: int| 0 <= i < items.len() && (#[trigger] items[i]).id@ == id;
            assert(ids[i] == id);
        }
    }
}

/// A tab switch lists the favorites first.
pub proof fn lemma_tab_work<F>(app: &mut App<F>, e: Option<Effect>)
    requires
        call_ensures(App::<F>::begin_work, (app, Pending::TabLoad), e),
    ensures
        e == Some(Effect::ListFavorites),
        final(app)@ == old(app)@,
{
}

/// Once they are listed, the first page of favorites is loaded if their tab is shown
/// and has no page yet; if not, the work is done, and the previews of the other tab
/// go.
pub proof fn lemma_tab_listed<F>(
    a: &mut App<F>,
    b: &mut App<F>,
    listed: Result<Vec<FavItem>, String>,
    next: Option<Effect>,
)
    requires
        old(a)@ == old(b)@,
        call_ensures(App::<F>::take_reply, (a, Effect::ListFavorites, Reply::Listed(listed)), next),
        call_ensures(App::<F>::finish_favorite_ids, (b, listed), ()),
    ensures
        final(a)@ == (PickerView { previews: final(a)@.previews, ..final(b)@ }),
        old(a).tab == Tab::Favorites && old(a).favorites.pager is None ==> next == Some(
            Effect::LoadFavorites { limit: PAGE_SIZE },
        ) && final(a)@.previews == old(a)@.previews,
        old(a).tab == Tab::Search || old(a).favorites.pager is Some ==> next is None
            && previews_dropped(*old(a), *final(a)),
{
}

/// The favorites are wanted when their tab is shown for the first time.
pub proof fn lemma_wanted_once<F>(app: App<F>, r: bool)
    requires
        call_ensures(App::<F>::wants_favorites, (&app,), r),
    ensures
        r <==> app.tab == Tab::Favorites && app.favorites.pager is None,
{
}

/// The first page of favorites that was loaded for their tab is shown on it from the
/// first item on, and its pager goes on at the picker's backend.
pub proof fn lemma_tab_loaded<F>(app: &mut App<F>, limit: usize, page: FavsPage, r: Option<Effect>)
    requires
        call_ensures(
            App::<F>::take_reply,
            (app, Effect::LoadFavorites { limit }, Reply::Favorites(Ok::<FavsPage, String>(page))),
            r,
        ),
        old(app).tab == Tab::Favorites,
        old(app).favorites.pager is None,
    ensures
        r is None,
        final(app).favorites.items@.len() == page.items@.len(),
        forall|i: int|
            0 <= i < page.items@.len() ==> shows_fav(
                #[trigger] final(app).favorites.items@[i],
                page.items@[i],
            ),
        final(app).favorites.selected == 0,
        final(app).favorites.first_item == 0,
        final(app).favorites.page == 0,
        final(app).favorites.pager is Some,
        final(app).favorites.pager->0 is Favs,
        final(app).favorites.pager->0->backend == old(app).favs,
        final(app).favorites.pager->0->Favs_total == page.total,
        final(app).status is None,
        previews_dropped(*old(app), *final(app)),
        final(app)@ == (PickerView {
            favorites: final(app)@.favorites,
            status: None,
            previews: final(app)@.previews,
            ..old(app)@
        }),
{
}

/// A first page of favorites that could not be loaded is told in the footer, and one
/// that is no longer wanted is dropped.
pub proof fn lemma_tab_not_loaded<F>(
    app: &mut App<F>,
    limit: usize,
    page: Result<FavsPage, String>,
    r: Option<Effect>,
)
    requires
        call_ensures(
            App::<F>::take_reply,
            (app, Effect::LoadFavorites { limit }, Reply::Favorites(page)),
            r,
        ),
        page is Err || old(app).tab == Tab::Search || old(app).favorites.pager is Some,
    ensures
        r is None,
        previews_dropped(*old(app), *final(app)),
        old(app).tab == Tab::Favorites && old(app).favorites.pager is None ==> final(app)@ == (
        PickerView {
            status: Some("favorites load failed: "@ + page->Err_0@),
            previews: final(app)@.previews,
            ..old(app)@
        }),
        old(app).tab == Tab::Search || old(app).favorites.pager is Some ==> final(app)@ == (
        PickerView { previews: final(app)@.previews, ..old(app)@ }),
{
}

/// `finish_tab_load` takes the page as that step of the work does.
pub proof fn lemma_tab_load_agrees<F>(
    a: &mut App<F>,
    b: &mut App<F>,
    limit: usize,
    page: Result<FavsPage, String>,
    r: Option<Effect>,
)
    requires
        old(a)@ == old(b)@,
        call_ensures(
            App::<F>::take_reply,
            (a, Effect::LoadFavorites { limit }, Reply::Favorites(page)),
            r,
        ),
        call_ensures(App::<F>::finish_tab_load, (b, Some(page)), ()),
    ensures
        final(a)@ == final(b)@,
{
}

/// A new page of items is shown on the active tab from the first one on, with
/// nothing in the footer; page number and pager stay, and so does the other tab.
pub proof fn lemma_apply_page<F>(app: &mut App<F>, items: Vec<UrlItem>)
    requires
        call_ensures(App::<F>::apply_page, (app, items), ()),
    ensures
        shown(*final(app)).items@ == items@,
        shown(*final(app)).selected == 0,
        shown(*final(app)).first_item == 0,
        shown(*final(app)).page == shown(*old(app)).page,
        shown(*final(app))@ == (GridView {
            items: items@,
            selected: 0,
            first_item: 0,
            ..shown(*old(app))@
        }),
        final(app).tab == old(app).tab,
        final(app).status is None,
        previews_dropped(*old(app), *final(app)),
        old(app).tab == Tab::Search ==> final(app)@ == (PickerView {
            search: final(app)@.search,
            status: None,
            previews: final(app)@.previews,
            ..old(app)@
        }),
        old(app).tab == Tab::Favorites ==> final(app)@ == (PickerView {
            favorites: final(app)@.favorites,
            status: None,
            previews: final(app)@.previews,
            ..old(app)@
        }),
{
}

/// Search results become items one by one, in order.
pub proof fn lemma_items_from_gifs(gifs: Vec<GifResult>, r: Vec<UrlItem>, i: int)
    requires
        call_ensures(crate::item::gif_items, (gifs,), r),
        0 <= i < gifs@.len(),
    ensures
        r@.len() == gifs@.len(),
        shows_gif(r@[i], gifs@[i]),
{
}

/// Favorites become items one by one, in order.
pub proof fn lemma_items_from_favs(favs: Vec<FavItem>, r: Vec<UrlItem>, i: int)
    requires
        call_ensures(crate::item::fav_items, (favs,), r),
        0 <= i < favs@.len(),
    ensures
        r@.len() == favs@.len(),
        shows_fav(r@[i], favs@[i]),
{
}

/// A page starts after as many items as the pages before it hold.
pub proof fn lemma_page_offset(page: usize, r: usize)
    requires
        call_ensures(crate::actions::page_offset, (page,), r),
    ensures
        r == 50 * page,
{
}

/// A search result becomes an item that shows it.
pub proof fn lemma_item_from_gif(g: GifResult, r: UrlItem)
    requires
        call_ensures(<UrlItem as From<GifResult>>::from, (g,), r),
    ensures
        shows_gif(r, g),
{
}

/// A favorite becomes an item that shows it.
pub proof fn lemma_item_from_fav(f: FavItem, r: UrlItem)
    requires
        call_ensures(<UrlItem as From<FavItem>>::from, (f,), r),
    ensures
        shows_fav(r, f),
{
}

/// The search result for an item has all that the item has.
pub proof fn lemma_item_to_gif(item: UrlItem, r: GifResult)
    requires
        call_ensures(UrlItem::to_gif_result, (&item,), r),
    ensures
        r.id == item.id,
        r.title == item.title,
        r.url == item.url,
        r.preview_url == item.preview_url,
        r.provider == item.provider,
{
}

/// A reply to something that was not asked for changes nothing.
pub proof fn lemma_stray_replies<F>(app: &mut App<F>, done: Effect, reply: Reply, r: Option<Effect>)
    requires
        call_ensures(App::<F>::take_reply, (app, done, reply), r),
        match reply {
            Reply::Page(_) => !(done is TurnPage),
            Reply::Search(_) => !(done is Search),
            Reply::Done(_) => !(done is Toggle || done is CopyGif || done is CopyUrl),
            Reply::Favorites(_) => !(done is RefreshFavorites || done is LoadFavorites),
            Reply::Listed(_) => !(done is ListFavorites),
        },
    ensures
        r is None,
        final(app)@ == old(app)@,
{
}

} // verus!
