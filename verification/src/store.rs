//! Local favorites store: the source of truth for favorites when no favorites
//! server is configured. A single list of favorites in one file.

use vstd::prelude::*;
use vstd::string::*;

use crate::favs::{describes, FavItem, FavsPage};
use crate::providers::GifResult;
use crate::text::{clone_text, same};

verus! {

/// The store that is kept in the file at `path`.
#[derive(Debug)]
pub struct LocalStore {
    path: String,
}

impl Clone for LocalStore {
    fn clone(&self) -> (r: Self)
        ensures
            r == *self,
    {
        LocalStore { path: self.path.clone() }
    }
}

/// What became of reading the file of a store.
#[derive(Debug)]
pub enum StoreFile {
    /// It was read and understood.
    Parsed(Vec<FavItem>),
    /// It was read, and is no list of favorites for the reason given.
    Damaged(String),
    /// There is none.
    Missing,
    /// It could not be read, for the reason given.
    Unreadable(String),
}

/// Whether the list of a store is known: it is empty if there is no file yet.
pub open spec fn is_known(file: StoreFile) -> bool {
    file is Parsed || file is Missing
}

/// The list of a store that is known.
pub open spec fn listed(file: StoreFile) -> Seq<FavItem> {
    match file {
        StoreFile::Parsed(items) => items@,
        _ => Seq::empty(),
    }
}

/// What is said of a store whose list is not known.
pub open spec fn store_trouble(path: Seq<char>, file: StoreFile) -> Seq<char> {
    match file {
        StoreFile::Damaged(why) => "invalid local favorites store at "@ + path + ": "@ + why@
            + " (fix or remove the file)"@,
        StoreFile::Unreadable(why) => "could not read local favorites store at "@ + path + ": "@
            + why@,
        _ => Seq::empty(),
    }
}

/// The place of the first favorite with the given id, or the length of the list
/// if there is none.
pub open spec fn place_of(items: Seq<FavItem>, id: Seq<char>) -> int
    decreases items.len(),
{
    if items.len() == 0 {
        0
    } else if items[0].id@ == id {
        0
    } else {
        1 + place_of(items.drop_first(), id)
    }
}

/// Whether a favorite with the given id is in the list.
pub open spec fn holds(items: Seq<FavItem>, id: Seq<char>) -> bool {
    exists|i: int| 0 <= i < items.len() && (#[trigger] items[i]).id@ == id
}

/// Whether no id is in the list twice.
pub open spec fn distinct(items: Seq<FavItem>) -> bool {
    forall|i: int, j: int|
        0 <= i < j < items.len() ==> (#[trigger] items[i]).id@ != (#[trigger] items[j]).id@
}

/// The favorites that have another id.
pub open spec fn other_than(id: Seq<char>) -> spec_fn(FavItem) -> bool {
    |f: FavItem| f.id@ != id
}

/// The list without the favorites that have the given id.
pub open spec fn without(items: Seq<FavItem>, id: Seq<char>) -> Seq<FavItem> {
    items.filter(other_than(id))
}

/// `place_of` is the first place at which the id stands.
pub proof fn lemma_place_of(items: Seq<FavItem>, id: Seq<char>)
    ensures
        0 <= place_of(items, id) <= items.len(),
        place_of(items, id) < items.len() ==> items[place_of(items, id)].id@ == id,
        forall|j: int| 0 <= j < place_of(items, id) ==> (#[trigger] items[j]).id@ != id,
        holds(items, id) <==> place_of(items, id) < items.len(),
    decreases items.len(),
{
    if items.len() > 0 && items[0].id@ != id {
        let rest = items.drop_first();
        lemma_place_of(rest, id);
        let p = place_of(items, id);
        assert forall|j: int| 0 <= j < p implies (#[trigger] items[j]).id@ != id by {
            if j > 0 {
                assert(items[j] == rest[j - 1]);
            }
        }
        if p < items.len() {
            assert(items[p] == rest[p - 1]);
        } else if holds(items, id) {
            let i = choose|i: int| 0 <= i < items.len() && (#[trigger] items[i]).id@ == id;
            assert(items[i] == rest[i - 1]);
        }
    }
}

proof fn lemma_place_is(items: Seq<FavItem>, id: Seq<char>, p: int)
    requires
        0 <= p <= items.len(),
        forall|j: int| 0 <= j < p ==> (#[trigger] items[j]).id@ != id,
        p < items.len() ==> items[p].id@ == id,
    ensures
        place_of(items, id) == p,
{
    lemma_place_of(items, id);
    let q = place_of(items, id);
    if q < p {
        assert(items[q].id@ != id);
    } else if p < q {
        assert(items[p].id@ != id);
    }
}

/// The list after a GIF was saved as `stored`: in the place of the favorite with
/// the same id, or at the end.
pub open spec fn saved(items: Seq<FavItem>, stored: FavItem) -> Seq<FavItem> {
    let p = place_of(items, stored.id@);
    if p < items.len() {
        items.update(p, stored)
    } else {
        items.push(stored)
    }
}

/// The number after `n`, or `n` if it is the largest there is.
pub open spec fn one_more(n: u64) -> u64 {
    if n < u64::MAX {
        (n + 1) as u64
    } else {
        n
    }
}

fn find(items: &Vec<FavItem>, id: &str) -> (r: usize)
    ensures
        r == place_of(items@, id@),
        r <= items@.len(),
{
    let mut i: usize = 0;
    while i < items.len()
        invariant
            i <= items@.len(),
            forall|j: int| 0 <= j < i ==> (#[trigger] items@[j]).id@ != id@,
        decreases items@.len() - i,
    {
        if same(items[i].id.as_str(), id) {
            proof {
                lemma_place_is(items@, id@, i as int);
            }
            return i;
        }
        i += 1;
    }
    proof {
        lemma_place_is(items@, id@, i as int);
    }
    i
}

impl LocalStore {
    /// Where the store is.
    pub closed spec fn location(self) -> Seq<char> {
        self.path@
    }

    /// Store at an explicit path.
    pub fn at(path: String) -> (r: LocalStore)
        ensures
            r.location() == path@,
    {
        LocalStore { path }
    }

    /// The path of the store's file.
    pub fn path(&self) -> (r: &str)
        ensures
            r@ == self.location(),
    {
        self.path.as_str()
    }

    /// The full list. A missing file is an empty list (fresh install); a
    /// damaged file is an error, so that callers never treat real favorites as
    /// absent: a toggle that then wrote back would destroy them.
    pub fn load(&self, file: StoreFile) -> (r: Result<Vec<FavItem>, String>)
        ensures
            match r {
                Ok(items) => is_known(file) && items@ == listed(file),
                Err(e) => !is_known(file) && e@ == store_trouble(self.location(), file),
            },
    {
        match file {
            StoreFile::Parsed(items) => Ok(items),
            StoreFile::Missing => Ok(Vec::new()),
            StoreFile::Damaged(why) => {
                let mut e: String = "invalid local favorites store at ".to_owned();
                e.append(self.path.as_str());
                e.append(": ");
                e.append(why.as_str());
                e.append(" (fix or remove the file)");
                Err(e)
            },
            StoreFile::Unreadable(why) => {
                let mut e: String = "could not read local favorites store at ".to_owned();
                e.append(self.path.as_str());
                e.append(": ");
                e.append(why.as_str());
                Err(e)
            },
        }
    }

    /// Inserts or updates (by id) a favorite. Returns the list to write and the
    /// stored item. What an existing entry says of when it was added and how
    /// often it was used is preserved.
    pub fn upsert(&self, file: StoreFile, gif: &GifResult, now: String) -> (r: Result<
        (Vec<FavItem>, FavItem),
        String,
    >)
        ensures
            match r {
                Ok((items, stored)) => {
                    let old_items = listed(file);
                    let p = place_of(old_items, gif.id@);
                    &&& is_known(file)
                    &&& items@ == saved(old_items, stored)
                    &&& describes(stored, *gif)
                    &&& stored.last_used is None
                    &&& if p < old_items.len() {
                        stored.added_at == old_items[p].added_at && stored.use_count
                            == old_items[p].use_count
                    } else {
                        stored.added_at == Some(now) && stored.use_count == 0
                    }
                },
                Err(e) => !is_known(file) && e@ == store_trouble(self.location(), file),
            },
    {
        let mut items: Vec<FavItem> = match self.load(file) {
            Ok(items) => items,
            Err(e) => return Err(e),
        };
        let mut stored: FavItem = FavItem::from_gif(gif, now);
        let p: usize = find(&items, gif.id.as_str());
        proof {
            lemma_place_of(items@, gif.id@);
        }
        if p < items.len() {
            stored.added_at = clone_text(&items[p].added_at);
            stored.use_count = items[p].use_count;
            items.set(p, stored.clone());
        } else {
            items.push(stored.clone());
        }
        Ok((items, stored))
    }

    /// Removes a favorite by id; a missing id is not an error. Returns the list
    /// to write, or `None` if it is as it was.
    pub fn remove(&self, file: StoreFile, id: &str) -> (r: Result<Option<Vec<FavItem>>, String>)
        ensures
            match r {
                Ok(Some(items)) => {
                    &&& is_known(file)
                    &&& items@ == without(listed(file), id@)
                    &&& items@.len() != listed(file).len()
                },
                Ok(None) => {
                    &&& is_known(file)
                    &&& without(listed(file), id@).len() == listed(file).len()
                },
                Err(e) => !is_known(file) && e@ == store_trouble(self.location(), file),
            },
    {
        let items: Vec<FavItem> = match self.load(file) {
            Ok(items) => items,
            Err(e) => return Err(e),
        };
        let before: usize = items.len();
        let ghost all = items@;
        let mut kept: Vec<FavItem> = Vec::new();
        proof {
            reveal(Seq::filter);
            assert(all.take(0).filter(other_than(id@)) == Seq::<FavItem>::empty());
        }
        for f in it: items
            invariant
                it.seq() == all,
                kept@ == all.take(it.index()).filter(other_than(id@)),
        {
            proof {
                reveal(Seq::filter);
                let longer = all.take(it.index() + 1);
                assert(longer.drop_last() == all.take(it.index()));
                assert(longer.last() == f);
            }
            if !same(f.id.as_str(), id) {
                kept.push(f);
            }
        }
        assert(all.take(all.len() as int) == all);
        if kept.len() != before {
            Ok(Some(kept))
        } else {
            Ok(None)
        }
    }

    /// Records a use of a favorite: one more use, the last one at `now`.
    /// Returns the list to write, or `None` if it is as it was, and the
    /// favorite as it now stands. A missing id is a silent no-op: nothing is
    /// counted, and a favorite of that id without anything else is returned.
    pub fn increment_use(&self, file: StoreFile, id: &str, now: String) -> (r: Result<
        (Option<Vec<FavItem>>, FavItem),
        String,
    >)
        ensures
            match r {
                Ok((Some(items), updated)) => {
                    let old_items = listed(file);
                    let p = place_of(old_items, id@);
                    &&& is_known(file)
                    &&& p < old_items.len()
                    &&& items@ == old_items.update(p, updated)
                    &&& updated == (FavItem {
                        use_count: one_more(old_items[p].use_count),
                        last_used: Some(now),
                        ..old_items[p]
                    })
                },
                Ok((None, blank)) => {
                    &&& is_known(file)
                    &&& !holds(listed(file), id@)
                    &&& blank.id@ == id@
                    &&& blank.url@.len() == 0
                    &&& blank.preview@.len() == 0
                    &&& blank.provider@.len() == 0
                    &&& blank.title@.len() == 0
                    &&& blank.use_count == 0
                    &&& blank.added_at is None
                    &&& blank.last_used is None
                },
                Err(e) => !is_known(file) && e@ == store_trouble(self.location(), file),
            },
    {
        let mut items: Vec<FavItem> = match self.load(file) {
            Ok(items) => items,
            Err(e) => return Err(e),
        };
        let p: usize = find(&items, id);
        proof {
            lemma_place_of(items@, id@);
        }
        if p == items.len() {
            return Ok(
                (
                    None,
                    FavItem {
                        id: id.to_owned(),
                        url: String::new(),
                        preview: String::new(),
                        provider: String::new(),
                        title: String::new(),
                        use_count: 0,
                        added_at: None,
                        last_used: None,
                    },
                ),
            );
        }
        let mut updated: FavItem = items[p].clone();
        updated.use_count = if updated.use_count < u64::MAX {
            updated.use_count + 1
        } else {
            updated.use_count
        };
        updated.last_used = Some(now);
        items.set(p, updated.clone());
        Ok((Some(items), updated))
    }

    /// One page of the store: at most `limit` favorites (all, for a limit of 0)
    /// from place `offset` on, and how many there are in all.
    pub fn list_page(&self, file: StoreFile, limit: usize, offset: usize) -> (r: Result<
        FavsPage,
        String,
    >)
        ensures
            match r {
                Ok(page) => {
                    &&& is_known(file)
                    &&& page.items@ == page_of(listed(file), limit as int, offset as int)
                    &&& page.total == Some(listed(file).len() as usize)
                },
                Err(e) => !is_known(file) && e@ == store_trouble(self.location(), file),
            },
    {
        let items: Vec<FavItem> = match self.load(file) {
            Ok(items) => items,
            Err(e) => return Err(e),
        };
        let len: usize = items.len();
        let from: usize = if offset < len {
            offset
        } else {
            len
        };
        let to: usize = if limit == 0 || limit >= len - from {
            len
        } else {
            from + limit
        };
        let mut out: Vec<FavItem> = Vec::new();
        let mut i: usize = from;
        while i < to
            invariant
                from <= i <= to <= items@.len(),
                out@ == items@.subrange(from as int, i as int),
            decreases to - i,
        {
            out.push(items[i].clone());
            i += 1;
            assert(out@ == items@.subrange(from as int, i as int));
        }
        Ok(FavsPage { items: out, total: Some(len) })
    }
}

/// The favorites from place `offset` on, at most `limit` of them unless that
/// is 0.
pub open spec fn page_of(items: Seq<FavItem>, limit: int, offset: int) -> Seq<FavItem> {
    let rest = if offset < items.len() {
        items.skip(offset)
    } else {
        Seq::empty()
    };
    if limit == 0 || limit >= rest.len() {
        rest
    } else {
        rest.take(limit)
    }
}

/// Saving never makes an id occur twice; the saved favorite is in the list and
/// all the others are, where they were.
pub proof fn lemma_saved_keeps_others(items: Seq<FavItem>, stored: FavItem)
    requires
        distinct(items),
    ensures
        distinct(saved(items, stored)),
        holds(saved(items, stored), stored.id@),
        forall|i: int|
            0 <= i < items.len() && items[i].id@ != stored.id@ ==> #[trigger] saved(
                items,
                stored,
            )[i] == items[i],
        items.len() <= saved(items, stored).len() <= items.len() + 1,
{
    let p = place_of(items, stored.id@);
    let after = saved(items, stored);
    lemma_place_of(items, stored.id@);
    if p < items.len() {
        assert(after[p] == stored);
        assert forall|i: int, j: int| 0 <= i < j < after.len() implies (#[trigger] after[i]).id@ != (
        #[trigger] after[j]).id@ by {
            assert(after[i].id@ == items[i].id@ && after[j].id@ == items[j].id@);
        }
    } else {
        assert(after[items.len() as int] == stored);
        assert forall|i: int, j: int| 0 <= i < j < after.len() implies (#[trigger] after[i]).id@ != (
        #[trigger] after[j]).id@ by {
            assert(after[i] == items[i]);
            if j < items.len() {
                assert(after[j] == items[j]);
            }
        }
    }
}

/// What is read after a save is what was saved: the favorite with that id is the
/// one that was stored, and storing it again changes nothing.
pub proof fn lemma_saved_reads_back(items: Seq<FavItem>, stored: FavItem)
    ensures
        ({
            let after = saved(items, stored);
            let p = place_of(after, stored.id@);
            &&& p == place_of(items, stored.id@)
            &&& p < after.len()
            &&& after[p] == stored
            &&& saved(after, stored) == after
        }),
{
    let p = place_of(items, stored.id@);
    let after = saved(items, stored);
    lemma_place_of(items, stored.id@);
    assert(after[p] == stored);
    assert forall|j: int| 0 <= j < p implies (#[trigger] after[j]).id@ != stored.id@ by {
        assert(after[j] == items[j]);
    }
    lemma_place_is(after, stored.id@, p);
    assert(saved(after, stored) == after);
}

proof fn lemma_filter_facts(items: Seq<FavItem>, id: Seq<char>)
    ensures
        !holds(without(items, id), id),
        without(items, id).len() <= items.len(),
        !holds(items, id) <==> without(items, id) == items,
        !holds(items, id) <==> without(items, id).len() == items.len(),
        forall|f: FavItem| #[trigger]
            without(items, id).contains(f) <==> items.contains(f) && f.id@ != id,
    decreases items.len(),
{
    reveal(Seq::filter);
    let after = without(items, id);
    if items.len() > 0 {
        let shorter = items.drop_last();
        let last = items.last();
        lemma_filter_facts(shorter, id);
        assert(items == shorter.push(last));
        let kept = without(shorter, id);
        if last.id@ != id {
            assert(after == kept.push(last));
            assert forall|f: FavItem| #[trigger] after.contains(f) <==> items.contains(f) && f.id@
                != id by {
                lemma_push_contains(kept, last, f);
                lemma_push_contains(shorter, last, f);
                assert(kept.contains(f) <==> shorter.contains(f) && f.id@ != id);
            }
            if holds(items, id) {
                let i = choose|i: int| 0 <= i < items.len() && (#[trigger] items[i]).id@ == id;
                assert(shorter[i].id@ == id);
            }
            if holds(shorter, id) {
                let i = choose|i: int| 0 <= i < shorter.len() && (#[trigger] shorter[i]).id@ == id;
                assert(items[i].id@ == id);
            }
        } else {
            assert(after == kept);
            assert(items[items.len() - 1].id@ == id);
            assert forall|f: FavItem| #[trigger] after.contains(f) <==> items.contains(f) && f.id@
                != id by {
                lemma_push_contains(shorter, last, f);
                assert(kept.contains(f) <==> shorter.contains(f) && f.id@ != id);
            }
        }
        if holds(after, id) {
            let i = choose|i: int| 0 <= i < after.len() && (#[trigger] after[i]).id@ == id;
            if i < kept.len() {
                assert(kept[i].id@ == id);
            }
        }
    } else {
        assert(after == items);
    }
}

proof fn lemma_push_contains(s: Seq<FavItem>, x: FavItem, f: FavItem)
    ensures
        s.push(x).contains(f) <==> s.contains(f) || f == x,
{
    let t = s.push(x);
    if t.contains(f) {
        let i = choose|i: int| 0 <= i < t.len() && t[i] == f;
        if i < s.len() {
            assert(s[i] == f);
        }
    }
    if s.contains(f) {
        let i = choose|i: int| 0 <= i < s.len() && s[i] == f;
        assert(t[i] == f);
    }
    if f == x {
        assert(t[s.len() as int] == f);
    }
}

/// Removing takes away the favorites with the id and no others; doing it twice
/// is doing it once; and it changes nothing exactly when there are none.
pub proof fn lemma_removed(items: Seq<FavItem>, id: Seq<char>)
    ensures
        !holds(without(items, id), id),
        forall|f: FavItem| #[trigger]
            without(items, id).contains(f) <==> items.contains(f) && f.id@ != id,
        without(without(items, id), id) == without(items, id),
        without(items, id).len() == items.len() <==> without(items, id) == items,
        without(items, id) == items <==> !holds(items, id),
{
    lemma_filter_facts(items, id);
    lemma_filter_facts(without(items, id), id);
}

/// Saving a GIF that was no favorite and removing it again gives the list that
/// there was.
pub proof fn lemma_saved_then_removed(items: Seq<FavItem>, stored: FavItem)
    requires
        !holds(items, stored.id@),
    ensures
        without(saved(items, stored), stored.id@) == items,
{
    reveal(Seq::filter);
    let id = stored.id@;
    lemma_place_of(items, id);
    lemma_filter_facts(items, id);
    let after = saved(items, stored);
    assert(after == items.push(stored));
    assert(after.drop_last() == items);
    assert(after.last() == stored);
}

/// Reading a store page by page, each page where the one before ended, gives
/// the whole list.
pub proof fn lemma_pages_join(items: Seq<FavItem>, limit: int, offset: int)
    requires
        0 < limit,
        0 <= offset <= items.len(),
    ensures
        items.take(offset) + page_of(items, limit, offset) == items.take(
            if offset + limit < items.len() {
                offset + limit
            } else {
                items.len() as int
            },
        ),
{
    let page = page_of(items, limit, offset);
    if offset == items.len() {
        assert(items.take(offset) + page == items.take(items.len() as int));
    } else if limit >= items.len() - offset {
        assert(items.take(offset) + page == items.take(items.len() as int));
    } else {
        assert(items.take(offset) + page == items.take(offset + limit));
    }
}

} // verus!
