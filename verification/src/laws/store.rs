//! Favorites in the local store: what each operation leaves in the list.

use vstd::prelude::*;

use crate::favs::{FavItem, FavsPage};
use crate::providers::{GifResult, Provider};
use crate::store::{LocalStore, StoreFile};

verus! {

/// What a readable file holds: the list in it, or nothing if there is no file yet.
pub open spec fn held(file: StoreFile) -> Seq<FavItem> {
    match file {
        StoreFile::Parsed(items) => items@,
        _ => Seq::empty(),
    }
}

/// Whether the file of a store can be gone by.
pub open spec fn readable(file: StoreFile) -> bool {
    match file {
        StoreFile::Parsed(_) | StoreFile::Missing => true,
        StoreFile::Damaged(_) | StoreFile::Unreadable(_) => false,
    }
}

/// Whether an id is in a list.
pub open spec fn has_id(items: Seq<FavItem>, id: Seq<char>) -> bool {
    exists|i: int| 0 <= i < items.len() && (#[trigger] items[i]).id@ == id
}

/// Whether an id is in a list for the first time at place `p`.
pub open spec fn first_at(items: Seq<FavItem>, id: Seq<char>, p: int) -> bool {
    &&& 0 <= p < items.len()
    &&& items[p].id@ == id
    &&& forall|j: int| 0 <= j < p ==> (#[trigger] items[j]).id@ != id
}

proof fn lemma_place(items: Seq<FavItem>, id: Seq<char>)
    ensures
        has_id(items, id) ==> first_at(items, id, crate::store::place_of(items, id)),
        !has_id(items, id) ==> crate::store::place_of(items, id) == items.len(),
{
    crate::store::lemma_place_of(items, id);
}

proof fn lemma_first_is_one(items: Seq<FavItem>, id: Seq<char>, p: int)
    requires
        first_at(items, id, p),
    ensures
        p == crate::store::place_of(items, id),
{
    crate::store::lemma_place_of(items, id);
    let q = crate::store::place_of(items, id);
    assert(items[p].id@ == id);
    if q < p {
        assert(items[q].id@ != id);
    }
}

/// The list of a store is the one in its file, and empty without a file. A file that
/// is damaged or cannot be read is an error that names it: real favorites are never
/// taken for absent.
pub proof fn lemma_load(s: LocalStore, file: StoreFile, path: &str, r: Result<Vec<FavItem>, String>)
    requires
        call_ensures(LocalStore::load, (&s, file), r),
        call_ensures(LocalStore::path, (&s,), path),
    ensures
        r is Ok <==> readable(file),
        r is Ok ==> r->Ok_0@ == held(file),
        match file {
            StoreFile::Damaged(why) => r->Err_0@ == "invalid local favorites store at "@ + path@
                + ": "@ + why@ + " (fix or remove the file)"@,
            StoreFile::Unreadable(why) => r->Err_0@ == "could not read local favorites store at "@
                + path@ + ": "@ + why@,
            _ => true,
        },
{
}

/// A store is where it was put.
pub proof fn lemma_path(path: String, s: LocalStore, r: &str)
    requires
        call_ensures(LocalStore::at, (path,), s),
        call_ensures(LocalStore::path, (&s,), r),
    ensures
        r@ == path@,
{
}

/// No operation goes by a list that cannot be read: all fail as loading does.
pub proof fn lemma_unreadable_store(
    s: LocalStore,
    file: StoreFile,
    gif: GifResult,
    now: String,
    id: &str,
    limit: usize,
    offset: usize,
    load: Result<Vec<FavItem>, String>,
    upsert: Result<(Vec<FavItem>, FavItem), String>,
    remove: Result<Option<Vec<FavItem>>, String>,
    used: Result<(Option<Vec<FavItem>>, FavItem), String>,
    page: Result<FavsPage, String>,
)
    requires
        call_ensures(LocalStore::load, (&s, file), load),
        call_ensures(LocalStore::upsert, (&s, file, &gif, now), upsert),
        call_ensures(LocalStore::remove, (&s, file, id), remove),
        call_ensures(LocalStore::increment_use, (&s, file, id, now), used),
        call_ensures(LocalStore::list_page, (&s, file, limit, offset), page),
    ensures
        upsert is Err <==> !readable(file),
        remove is Err <==> !readable(file),
        used is Err <==> !readable(file),
        page is Err <==> !readable(file),
        !readable(file) ==> {
            &&& load is Err
            &&& upsert->Err_0@ == load->Err_0@
            &&& remove->Err_0@ == load->Err_0@
            &&& used->Err_0@ == load->Err_0@
            &&& page->Err_0@ == load->Err_0@
        },
{
}

/// A GIF that is saved stands in the list as it is: in the place of the favorite with
/// its id, or at the end if there is none. Every other favorite stays where it is.
pub proof fn lemma_saving(
    s: LocalStore,
    file: StoreFile,
    gif: GifResult,
    now: String,
    r: Result<(Vec<FavItem>, FavItem), String>,
    p: int,
)
    requires
        call_ensures(LocalStore::upsert, (&s, file, &gif, now), r),
        r is Ok,
        has_id(held(file), gif.id@) ==> first_at(held(file), gif.id@, p),
        !has_id(held(file), gif.id@) ==> p == held(file).len(),
    ensures
        ({
            let before = held(file);
            let after = r->Ok_0.0@;
            &&& p < after.len()
            &&& after.len() == (if has_id(before, gif.id@) {
                before.len()
            } else {
                before.len() + 1
            })
            &&& after[p] == r->Ok_0.1
            &&& after[p].id@ == gif.id@
            &&& after[p].title@ == gif.title@
            &&& after[p].url@ == gif.url@
            &&& after[p].preview@ == gif.preview_url@
            &&& gif.provider == Provider::Giphy ==> after[p].provider@ == "giphy"@
            &&& gif.provider == Provider::Klipy ==> after[p].provider@ == "klipy"@
            &&& forall|i: int|
                0 <= i < before.len() && i != p ==> #[trigger] after[i] == before[i]
        }),
{
    lemma_place(held(file), gif.id@);
    if has_id(held(file), gif.id@) {
        lemma_first_is_one(held(file), gif.id@, p);
    }
}

/// A favorite that is saved again keeps when it was added and how often it was used;
/// a new one starts with the time and no use.
pub proof fn lemma_saving_keeps_the_record(
    s: LocalStore,
    file: StoreFile,
    gif: GifResult,
    now: String,
    r: Result<(Vec<FavItem>, FavItem), String>,
    p: int,
)
    requires
        call_ensures(LocalStore::upsert, (&s, file, &gif, now), r),
        r is Ok,
        has_id(held(file), gif.id@) ==> first_at(held(file), gif.id@, p),
    ensures
        r->Ok_0.1.last_used is None,
        has_id(held(file), gif.id@) ==> {
            &&& r->Ok_0.1.added_at == held(file)[p].added_at
            &&& r->Ok_0.1.use_count == held(file)[p].use_count
        },
        !has_id(held(file), gif.id@) ==> {
            &&& r->Ok_0.1.added_at == Some(now)
            &&& r->Ok_0.1.use_count == 0
        },
{
    lemma_place(held(file), gif.id@);
    if has_id(held(file), gif.id@) {
        lemma_first_is_one(held(file), gif.id@, p);
    }
}

/// Removing an id takes the favorites with it out of the list and leaves all others,
/// in their order. A list without it is not written again.
pub proof fn lemma_removing(
    s: LocalStore,
    file: StoreFile,
    id: &str,
    r: Result<Option<Vec<FavItem>>, String>,
    f: FavItem,
)
    requires
        call_ensures(LocalStore::remove, (&s, file, id), r),
        r is Ok,
    ensures
        r->Ok_0 is Some <==> has_id(held(file), id@),
        r->Ok_0 is Some ==> {
            let after = r->Ok_0->0@;
            &&& !has_id(after, id@)
            &&& after.contains(f) <==> held(file).contains(f) && f.id@ != id@
            &&& after.len() < held(file).len()
        },
{
    let items = held(file);
    crate::store::lemma_removed(items, id@);
    lemma_fewer(items, id@);
    let after = crate::store::without(items, id@);
    if has_id(after, id@) {
        assert(crate::store::holds(after, id@));
    }
    assert(has_id(items, id@) <==> crate::store::holds(items, id@));
    assert(after.contains(f) <==> items.contains(f) && f.id@ != id@);
}

proof fn lemma_fewer(items: Seq<FavItem>, id: Seq<char>)
    ensures
        crate::store::without(items, id).len() <= items.len(),
    decreases items.len(),
{
    reveal(Seq::filter);
    if items.len() > 0 {
        lemma_fewer(items.drop_last(), id);
    }
}

proof fn lemma_removed_order(items: Seq<FavItem>, id: Seq<char>, i: int, j: int) -> (at: (int, int))
    requires
        0 <= i < j < items.len(),
        items[i].id@ != id,
        items[j].id@ != id,
    ensures
        ({
            let after = crate::store::without(items, id);
            &&& 0 <= at.0 < at.1 < after.len()
            &&& after[at.0] == items[i]
            &&& after[at.1] == items[j]
        }),
    decreases items.len(),
{
    reveal(Seq::filter);
    let shorter = items.drop_last();
    let after = crate::store::without(items, id);
    let kept = crate::store::without(shorter, id);
    if j < items.len() - 1 {
        let at = lemma_removed_order(shorter, id, i, j);
        assert(kept[at.0] == items[i] && kept[at.1] == items[j]);
        if items.last().id@ != id {
            assert(after == kept.push(items.last()));
        }
        at
    } else {
        let a = lemma_removed_place(shorter, id, i);
        assert(after == kept.push(items.last()));
        (a, kept.len() as int)
    }
}

proof fn lemma_removed_place(items: Seq<FavItem>, id: Seq<char>, i: int) -> (at: int)
    requires
        0 <= i < items.len(),
        items[i].id@ != id,
    ensures
        0 <= at < crate::store::without(items, id).len(),
        crate::store::without(items, id)[at] == items[i],
    decreases items.len(),
{
    reveal(Seq::filter);
    let shorter = items.drop_last();
    let after = crate::store::without(items, id);
    let kept = crate::store::without(shorter, id);
    if i < items.len() - 1 {
        let at = lemma_removed_place(shorter, id, i);
        if items.last().id@ != id {
            assert(after == kept.push(items.last()));
        }
        at
    } else {
        assert(after == kept.push(items.last()));
        kept.len() as int
    }
}

/// Favorites that are left after a removal come in the order in which they came
/// before.
pub proof fn lemma_removing_keeps_order(
    s: LocalStore,
    file: StoreFile,
    id: &str,
    r: Result<Option<Vec<FavItem>>, String>,
    i: int,
    j: int,
) -> (at: (int, int))
    requires
        call_ensures(LocalStore::remove, (&s, file, id), r),
        r is Ok,
        r->Ok_0 is Some,
        0 <= i < j < held(file).len(),
        held(file)[i].id@ != id@,
        held(file)[j].id@ != id@,
    ensures
        0 <= at.0 < at.1 < r->Ok_0->0@.len(),
        r->Ok_0->0@[at.0] == held(file)[i],
        r->Ok_0->0@[at.1] == held(file)[j],
{
    lemma_removed_order(held(file), id@, i, j)
}

/// A favorite that was saved is found by its id, and is gone once it is removed again:
/// the list is then what it was, if the GIF was no favorite before.
pub proof fn lemma_saved_then_removed(
    s: LocalStore,
    file: StoreFile,
    gif: GifResult,
    now: String,
    saved: Result<(Vec<FavItem>, FavItem), String>,
    after: StoreFile,
    id: &str,
    removed: Result<Option<Vec<FavItem>>, String>,
)
    requires
        call_ensures(LocalStore::upsert, (&s, file, &gif, now), saved),
        saved is Ok,
        after == StoreFile::Parsed(saved->Ok_0.0),
        id@ == gif.id@,
        call_ensures(LocalStore::remove, (&s, after, id), removed),
        !has_id(held(file), gif.id@),
    ensures
        removed is Ok,
        removed->Ok_0 is Some,
        removed->Ok_0->0@ == held(file),
{
    let items = held(file);
    let stored = saved->Ok_0.1;
    lemma_place(items, gif.id@);
    assert(stored.id@ == gif.id@);
    assert(!crate::store::holds(items, stored.id@)) by {
        if crate::store::holds(items, stored.id@) {
            assert(has_id(items, gif.id@));
        }
    }
    crate::store::lemma_saved_then_removed(items, stored);
    assert(held(after) == items.push(stored));
}

/// A use of a favorite is counted on the favorite with the id, and on no other; its
/// time is kept as that of the last use. Nothing else of it changes.
pub proof fn lemma_counting_a_use(
    s: LocalStore,
    file: StoreFile,
    id: &str,
    now: String,
    r: Result<(Option<Vec<FavItem>>, FavItem), String>,
    p: int,
)
    requires
        call_ensures(LocalStore::increment_use, (&s, file, id, now), r),
        r is Ok,
        first_at(held(file), id@, p),
    ensures
        r->Ok_0.0 is Some,
        ({
            let before = held(file);
            let after = r->Ok_0.0->0@;
            let f = r->Ok_0.1;
            &&& after.len() == before.len()
            &&& after[p] == f
            &&& forall|i: int| 0 <= i < before.len() && i != p ==> #[trigger] after[i] == before[i]
            &&& before[p].use_count < u64::MAX ==> f.use_count == before[p].use_count + 1
            &&& before[p].use_count == u64::MAX ==> f.use_count == u64::MAX
            &&& f.last_used == Some(now)
            &&& f.id == before[p].id
            &&& f.url == before[p].url
            &&& f.preview == before[p].preview
            &&& f.provider == before[p].provider
            &&& f.title == before[p].title
            &&& f.added_at == before[p].added_at
        }),
{
    lemma_first_is_one(held(file), id@, p);
    crate::store::lemma_place_of(held(file), id@);
    assert(held(file)[p].id@ == id@);
    assert(crate::store::holds(held(file), id@));
}

/// A use of what is no favorite is not counted, and nothing is written.
pub proof fn lemma_unknown_use(
    s: LocalStore,
    file: StoreFile,
    id: &str,
    now: String,
    r: Result<(Option<Vec<FavItem>>, FavItem), String>,
)
    requires
        call_ensures(LocalStore::increment_use, (&s, file, id, now), r),
        r is Ok,
        !has_id(held(file), id@),
    ensures
        r->Ok_0.0 is None,
        r->Ok_0.1.id@ == id@,
        r->Ok_0.1.use_count == 0,
        r->Ok_0.1.last_used is None,
        r->Ok_0.1.added_at is None,
        r->Ok_0.1.url@.len() == 0 && r->Ok_0.1.title@.len() == 0 && r->Ok_0.1.preview@.len() == 0
            && r->Ok_0.1.provider@.len() == 0,
{
    lemma_place(held(file), id@);
}

/// A page of the store is the part of the list that starts where it is told to, as
/// long as it is told to be or as there are favorites; no limit means all the rest.
/// The total is that of the whole list.
pub proof fn lemma_page(
    s: LocalStore,
    file: StoreFile,
    limit: usize,
    offset: usize,
    r: Result<FavsPage, String>,
)
    requires
        call_ensures(LocalStore::list_page, (&s, file, limit, offset), r),
        r is Ok,
        held(file).len() <= usize::MAX,
    ensures
        ({
            let all = held(file);
            let page = r->Ok_0.items@;
            &&& r->Ok_0.total is Some
            &&& r->Ok_0.total->0 == all.len()
            &&& offset >= all.len() ==> page.len() == 0
            &&& offset < all.len() && (limit == 0 || limit >= all.len() - offset) ==> page.len()
                == all.len() - offset
            &&& 0 < limit < all.len() - offset ==> page.len() == limit
            &&& forall|i: int| 0 <= i < page.len() ==> #[trigger] page[i] == all[offset + i]
        }),
{
}

} // verus!
