use gifdeck::favs::FavItem;
use gifdeck::providers::{GifResult, Provider};
use gifdeck::store::{LocalStore, StoreFile};

fn gif(id: &str) -> GifResult {
    GifResult {
        id: id.into(),
        title: format!("gif {id}"),
        url: format!("https://x/{id}.gif"),
        preview_url: format!("https://x/{id}-preview.gif"),
        provider: Provider::Klipy,
    }
}

/// A store whose file is kept in memory, with a clock that moves on.
struct Kept {
    store: LocalStore,
    file: Option<Vec<FavItem>>,
    clock: u64,
}

impl Kept {
    fn new(name: &str) -> Kept {
        Kept {
            store: LocalStore::at(format!("/data/{name}/favorites.json")),
            file: None,
            clock: 1000,
        }
    }

    fn read(&self) -> StoreFile {
        match &self.file {
            Some(items) => StoreFile::Parsed(items.clone()),
            None => StoreFile::Missing,
        }
    }

    fn now(&mut self) -> String {
        self.clock += 1;
        self.clock.to_string()
    }

    fn load(&self) -> Vec<FavItem> {
        self.store.load(self.read()).unwrap()
    }

    fn upsert(&mut self, gif: &GifResult) -> FavItem {
        let now = self.now();
        let (items, stored) = self.store.upsert(self.read(), gif, now).unwrap();
        self.file = Some(items);
        stored
    }

    fn remove(&mut self, id: &str) {
        if let Some(items) = self.store.remove(self.read(), id).unwrap() {
            self.file = Some(items);
        }
    }

    fn increment_use(&mut self, id: &str) -> FavItem {
        let now = self.now();
        let (items, updated) = self.store.increment_use(self.read(), id, now).unwrap();
        if let Some(items) = items {
            self.file = Some(items);
        }
        updated
    }
}

#[test]
fn missing_file_is_empty_list() {
    let s = Kept::new("missing");
    assert!(s.load().is_empty());
    assert_eq!(s.store.path(), "/data/missing/favorites.json");
}

#[test]
fn load_gives_the_list_in_the_file() {
    let mut s = Kept::new("listed");
    s.file = Some(vec![
        FavItem::from_gif(&gif("a"), "1".into()),
        FavItem::from_gif(&gif("b"), "2".into()),
    ]);
    let loaded = s.load();
    assert_eq!(loaded.len(), 2);
    assert_eq!(loaded[0].id, "a");
    assert_eq!(loaded[1].url, "https://x/b.gif");
    assert_eq!(loaded[1].provider, "klipy");
}

#[test]
fn invalid_file_is_an_error_not_empty() {
    let s = LocalStore::at("/data/f.json".into());
    let damaged = || StoreFile::Damaged("expected value at line 1".into());
    let err = s.load(damaged()).unwrap_err();
    assert!(err.contains("invalid local favorites store"), "got: {err}");
    assert_eq!(
        err,
        "invalid local favorites store at /data/f.json: expected value at line 1 \
         (fix or remove the file)"
    );
    // And upsert must refuse to write over a damaged store.
    assert!(s.upsert(damaged(), &gif("a"), "1".into()).is_err());
    assert!(s.remove(damaged(), "a").is_err());
}

#[test]
fn unreadable_file_is_an_error() {
    let s = LocalStore::at("/data/f.json".into());
    let unreadable = || StoreFile::Unreadable("permission denied".into());
    let said = "could not read local favorites store at /data/f.json: permission denied";
    assert_eq!(s.load(unreadable()).unwrap_err(), said);
    assert_eq!(s.list_page(unreadable(), 50, 0).unwrap_err(), said);
    assert_eq!(s.remove(unreadable(), "a").unwrap_err(), said);
}

#[test]
fn upsert_inserts_then_updates_in_place() {
    let mut s = Kept::new("upsert");
    let first = s.upsert(&gif("a"));
    assert!(first.added_at.is_some(), "new entries get a timestamp");
    s.upsert(&gif("b"));
    // Update "a" with a new URL: id and position stay, added_at kept.
    let mut updated = gif("a");
    updated.url = "https://x/a-v2.gif".into();
    s.upsert(&updated);
    let items = s.load();
    assert_eq!(items.len(), 2, "upsert never duplicates");
    assert_eq!(items[0].id, "a");
    assert_eq!(items[0].url, "https://x/a-v2.gif");
    assert_eq!(items[0].added_at, first.added_at);
    assert_eq!(items[1].id, "b");
}

#[test]
fn remove_deletes_and_is_idempotent() {
    let mut s = Kept::new("remove");
    s.upsert(&gif("a"));
    s.upsert(&gif("b"));
    s.remove("a");
    let items = s.load();
    assert_eq!(items.len(), 1);
    assert_eq!(items[0].id, "b");
    s.remove("nope");
    assert_eq!(s.load().len(), 1);
}

#[test]
fn remove_writes_only_what_changed() {
    let mut s = Kept::new("unchanged");
    s.upsert(&gif("a"));
    assert!(s.store.remove(s.read(), "nope").unwrap().is_none());
    assert!(s.store.remove(StoreFile::Missing, "a").unwrap().is_none());
    assert_eq!(s.store.remove(s.read(), "a").unwrap().unwrap().len(), 0);
}

#[test]
fn increment_use_bumps_and_persists() {
    let mut s = Kept::new("use-bump");
    let fav = s.upsert(&gif("a"));
    assert_eq!(fav.use_count, 0);
    assert!(fav.last_used.is_none());

    let first = s.increment_use("a");
    assert_eq!(first.use_count, 1);
    assert!(first.last_used.is_some());

    let second = s.increment_use("a");
    assert_eq!(second.use_count, 2);

    let items = s.load();
    assert_eq!(items[0].use_count, 2, "bump is persisted");
    assert_eq!(items[0].last_used, second.last_used);
    // added_at is preserved, like upsert does.
    assert_eq!(items[0].added_at, fav.added_at);
}

#[test]
fn increment_use_missing_id_is_a_noop() {
    let mut s = Kept::new("use-missing");
    s.upsert(&gif("a"));
    let noop = s.increment_use("nope");
    assert_eq!(noop.id, "nope");
    assert_eq!(noop.use_count, 0);
    assert!(noop.last_used.is_none());
    let items = s.load();
    assert_eq!(items.len(), 1, "no entry created");
    assert_eq!(items[0].use_count, 0, "existing entry untouched");
}

#[test]
fn increment_use_refuses_damaged_store() {
    let s = LocalStore::at("/data/f.json".into());
    assert!(s
        .increment_use(StoreFile::Damaged("x".into()), "a", "1".into())
        .is_err());
}

#[test]
fn increment_use_stops_at_the_largest_count() {
    let mut s = Kept::new("use-max");
    s.upsert(&gif("a"));
    s.file.as_mut().unwrap()[0].use_count = u64::MAX;
    assert_eq!(s.increment_use("a").use_count, u64::MAX);
}

#[test]
fn upsert_keeps_use_count_and_forgets_last_use() {
    let mut s = Kept::new("use-kept");
    s.upsert(&gif("a"));
    s.increment_use("a");
    let again = s.upsert(&gif("a"));
    assert_eq!(again.use_count, 1);
    assert!(again.last_used.is_none());
}

#[test]
fn saved_then_removed_is_what_there_was() {
    let mut s = Kept::new("undo");
    s.upsert(&gif("a"));
    s.upsert(&gif("b"));
    s.upsert(&gif("c"));
    s.remove("c");
    let ids: Vec<String> = s.load().into_iter().map(|f| f.id).collect();
    assert_eq!(ids, vec!["a", "b"]);
}

#[test]
fn pages_of_the_store() {
    let mut s = Kept::new("pages");
    for i in 0..101 {
        s.upsert(&gif(&format!("f{i}")));
    }
    let page = |limit, offset| s.store.list_page(s.read(), limit, offset).unwrap();
    let last = page(50, 100);
    assert_eq!(last.items.len(), 1);
    assert_eq!(last.items[0].id, "f100");
    assert_eq!(last.total, Some(101));
    assert_eq!(page(50, 50).items[0].id, "f50");
    assert_eq!(page(50, 50).items.len(), 50);
    assert_eq!(page(50, 150).items.len(), 0);
    assert_eq!(page(0, 0).items.len(), 101, "no limit");
    assert_eq!(page(0, 100).items.len(), 1);
    assert_eq!(page(usize::MAX, 1).items.len(), 100);
}

#[test]
fn what_was_saved_reads_back() {
    let mut s = Kept::new("readback");
    s.upsert(&gif("a"));
    let stored = s.upsert(&gif("b"));
    s.upsert(&gif("c"));
    assert_eq!(s.load()[1].url, stored.url);
    let again = s.upsert(&gif("b"));
    assert_eq!(again.added_at, stored.added_at);
    let ids: Vec<String> = s.load().into_iter().map(|f| f.id).collect();
    assert_eq!(ids, vec!["a", "b", "c"]);
}
