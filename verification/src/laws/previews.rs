//! How previews are shown, asked for, kept and dropped.

use vstd::prelude::*;

use crate::app::{App, PickerView};
use crate::decode::{DecodeError, GifFrame};
use crate::encode::{Encoded, Encoder, Scaling};
use crate::geometry::Size;
use crate::laws::keys::shown;
use crate::preview::{CachedPreview, Loaded, PreviewCache, PreviewEntry};
use crate::screen::texts;

verus! {

/// How long the first `n` frames are shown together.
pub open spec fn shown_until(delays: Seq<u64>, n: int) -> int
    decreases n,
{
    if n <= 0 {
        0
    } else {
        shown_until(delays, n - 1) + delays[n - 1]
    }
}

proof fn lemma_until_shift(delays: Seq<u64>, n: int)
    requires
        0 < n <= delays.len(),
    ensures
        shown_until(delays, n) == delays[0] + shown_until(delays.drop_first(), n - 1),
    decreases n,
{
    if n > 1 {
        lemma_until_shift(delays, n - 1);
        assert(delays.drop_first()[n - 2] == delays[n - 1]);
    } else {
        assert(shown_until(delays, 0) == 0);
        assert(shown_until(delays.drop_first(), 0) == 0);
    }
}

proof fn lemma_until_total(delays: Seq<u64>)
    ensures
        shown_until(delays, delays.len() as int) == crate::preview::total_delay(delays),
    decreases delays.len(),
{
    if delays.len() > 0 {
        lemma_until_shift(delays, delays.len() as int);
        lemma_until_total(delays.drop_first());
    }
}

proof fn lemma_until_take(delays: Seq<u64>, n: int)
    requires
        0 <= n <= delays.len(),
    ensures
        shown_until(delays, n) == crate::preview::total_delay(delays.take(n)),
{
    lemma_until_total(delays.take(n));
    lemma_until_same(delays, n, n);
}

proof fn lemma_until_same(delays: Seq<u64>, m: int, n: int)
    requires
        0 <= n <= m <= delays.len(),
    ensures
        shown_until(delays.take(m), n) == shown_until(delays, n),
    decreases n,
{
    if n > 0 {
        lemma_until_same(delays, m, n - 1);
        assert(delays.take(m)[n - 1] == delays[n - 1]);
    }
}

proof fn lemma_until_nonnegative(delays: Seq<u64>, n: int)
    requires
        0 <= n <= delays.len(),
    ensures
        0 <= shown_until(delays, n),
    decreases n,
{
    if n > 0 {
        lemma_until_nonnegative(delays, n - 1);
    }
}

/// An animation runs over and over: the frame that is on at a time into a run is the
/// one that has begun by then and has not ended yet.
pub proof fn lemma_frame_that_is_on(delays: &[u64], elapsed: u128, r: usize)
    requires
        call_ensures(crate::preview::frame_index, (delays, elapsed), r),
    ensures
        ({
            let whole = shown_until(delays@, delays@.len() as int);
            let into = elapsed as int % whole;
            &&& whole > 0 ==> {
                &&& r < delays@.len()
                &&& shown_until(delays@, r as int) <= into < shown_until(delays@, r + 1)
            }
            &&& whole == 0 ==> r == 0
        }),
{
    let whole = shown_until(delays@, delays@.len() as int);
    lemma_until_total(delays@);
    lemma_until_nonnegative(delays@, delays@.len() as int);
    if whole > 0 {
        let into = elapsed as int % whole;
        vstd::arithmetic::div_mod::lemma_fundamental_div_mod(elapsed as int, whole);
        vstd::arithmetic::div_mod::lemma_mod_division_less_than_divisor(elapsed as int, whole);
        crate::preview::lemma_frame_on(delays@, into);
        lemma_until_take(delays@, r as int);
        lemma_until_take(delays@, r + 1);
    }
}

/// The frame to draw is the one that is on in the milliseconds since the preview was
/// loaded, or the last one if there are fewer frames than delays.
pub proof fn lemma_frame_to_draw<F>(
    c: CachedPreview<F>,
    now: u128,
    r: &F,
    ms: u128,
    delays: &[u64],
    on: usize,
)
    requires
        call_ensures(CachedPreview::<F>::frame, (&c, now), r),
        c.frames@.len() > 0,
        now >= c.loaded_at ==> ms * 1_000_000 <= now - c.loaded_at < (ms + 1) * 1_000_000,
        now < c.loaded_at ==> ms == 0,
        delays@ == c.delays@,
        call_ensures(crate::preview::frame_index, (delays, ms), on),
    ensures
        on < c.frames@.len() ==> *r == c.frames@[on as int],
        on >= c.frames@.len() ==> *r == c.frames@.last(),
{
    assert(c.age(now) == ms);
}

/// A preview tells how many frames it has and what it was decoded from.
pub proof fn lemma_preview_parts<F>(c: CachedPreview<F>, n: usize, b: &std::sync::Arc<Vec<u8>>)
    requires
        call_ensures(CachedPreview::<F>::frame_count, (&c,), n),
        call_ensures(CachedPreview::<F>::raw_bytes, (&c,), b),
    ensures
        n == c.frames@.len(),
        b@ == c.bytes@,
{
}

/// A load is started for a preview that has an address and that nothing is known of,
/// and for no other; it is on its way then. Asking for any other changes nothing.
pub proof fn lemma_asking<F>(
    cache: &mut PreviewCache<F>,
    url: &str,
    r: bool,
    before: PreviewCache<F>,
    after: PreviewCache<F>,
    was: Option<&PreviewEntry<F>>,
    is: Option<&PreviewEntry<F>>,
)
    requires
        old(cache).wf(),
        call_ensures(PreviewCache::<F>::try_request, (cache, url), r),
        before@ == old(cache)@,
        after@ == final(cache)@,
        call_ensures(PreviewCache::<F>::get, (&before, url), was),
        call_ensures(PreviewCache::<F>::get, (&after, url), is),
    ensures
        r <==> url@.len() > 0 && was is None,
        r ==> is is Some && *is->0 is Requested,
        !r ==> final(cache)@ == old(cache)@,
        final(cache)@.cap == old(cache)@.cap,
{
    old(cache).lemma_wf();
    crate::preview::lemma_requested_once(old(cache)@, url@);
}

/// As long as there is room, asking for a preview drops no other.
pub proof fn lemma_asking_with_room<F>(
    cache: &mut PreviewCache<F>,
    url: &str,
    r: bool,
    before: PreviewCache<F>,
    after: PreviewCache<F>,
    other: &str,
    was: Option<&PreviewEntry<F>>,
    is: Option<&PreviewEntry<F>>,
)
    requires
        old(cache).wf(),
        call_ensures(PreviewCache::<F>::try_request, (cache, url), r),
        old(cache)@.entries.len() < old(cache)@.cap,
        before@ == old(cache)@,
        after@ == final(cache)@,
        call_ensures(PreviewCache::<F>::get, (&before, other), was),
        call_ensures(PreviewCache::<F>::get, (&after, other), is),
        was is Some,
    ensures
        is is Some,
        *is->0 == *was->0,
{
    old(cache).lemma_wf();
    let keys = seq![url@];
    crate::preview::lemma_room_for_all(old(cache)@, keys, other@);
    assert(keys.drop_last() == Seq::<Seq<char>>::empty());
    assert(crate::preview::asked_all(old(cache)@, keys.drop_last()) == old(cache)@);
    assert(crate::preview::asked_all(old(cache)@, keys) == old(cache)@.requested(url@));
}

/// What was on its way is there once it comes in, or failed for the reason given; a
/// result that nobody waits for changes nothing.
pub proof fn lemma_coming_in<F>(
    a: &mut PreviewCache<F>,
    b: &mut PreviewCache<F>,
    url: &str,
    cached: CachedPreview<F>,
    why: String,
    before: PreviewCache<F>,
    ready: PreviewCache<F>,
    failed: PreviewCache<F>,
    was: Option<&PreviewEntry<F>>,
    x: Option<&PreviewEntry<F>>,
    y: Option<&PreviewEntry<F>>,
)
    requires
        old(a).wf(),
        old(b)@ == old(a)@,
        call_ensures(PreviewCache::<F>::insert_ready, (a, url, cached), ()),
        call_ensures(PreviewCache::<F>::insert_failed, (b, url, why), ()),
        before@ == old(a)@,
        ready@ == final(a)@,
        failed@ == final(b)@,
        call_ensures(PreviewCache::<F>::get, (&before, url), was),
        call_ensures(PreviewCache::<F>::get, (&ready, url), x),
        call_ensures(PreviewCache::<F>::get, (&failed, url), y),
        old(a)@.entries.len() <= old(a)@.cap,
    ensures
        was is Some && *was->0 is Requested ==> {
            &&& x is Some
            &&& *x->0 == PreviewEntry::Ready(cached)
            &&& y is Some
            &&& *y->0 == PreviewEntry::<F>::Failed(why)
        },
        !(was is Some && *was->0 is Requested) ==> final(a)@ == old(a)@ && final(b)@ == old(b)@,
{
    old(a).lemma_wf();
    let v = old(a)@;
    if was is Some && *was->0 is Requested {
        crate::preview::lemma_finished_is_known(v, url@, PreviewEntry::Ready(cached), url@);
        crate::preview::lemma_finished_is_known(v, url@, PreviewEntry::<F>::Failed(why), url@);
    }
}

/// What comes in changes nothing of the others, as long as there is room for all.
pub proof fn lemma_coming_in_keeps_others<F>(
    cache: &mut PreviewCache<F>,
    url: &str,
    cached: CachedPreview<F>,
    before: PreviewCache<F>,
    after: PreviewCache<F>,
    other: &str,
    was: Option<&PreviewEntry<F>>,
    is: Option<&PreviewEntry<F>>,
)
    requires
        old(cache).wf(),
        call_ensures(PreviewCache::<F>::insert_ready, (cache, url, cached), ()),
        before@ == old(cache)@,
        after@ == final(cache)@,
        call_ensures(PreviewCache::<F>::get, (&before, other), was),
        call_ensures(PreviewCache::<F>::get, (&after, other), is),
        old(cache)@.entries.len() <= old(cache)@.cap,
        other@ != url@,
    ensures
        is is Some <==> was is Some,
        is is Some ==> *is->0 == *was->0,
{
    old(cache).lemma_wf();
    let v = old(cache)@;
    if v.known(url@) is Some && v.known(url@)->0 is Requested {
        crate::preview::lemma_finished_is_known(v, url@, PreviewEntry::Ready(cached), other@);
    }
}

/// A load ends as it ended: a preview is stored, an error is a failure, and so is what
/// is no GIF.
pub proof fn lemma_load_ends<F>(
    result: Result<Option<CachedPreview<F>>, String>,
    r: Loaded<F>,
)
    requires
        call_ensures(Loaded::<F>::from_decoding, (result,), r),
    ensures
        result is Err ==> r == Loaded::<F>::Failed(result->Err_0),
        result is Ok && result->Ok_0 is None ==> r is NotGif,
        result is Ok && result->Ok_0 is Some ==> r == Loaded::Decoded(result->Ok_0->0),
{
}

/// The end of a load is stored as the preview that was decoded, or as the failure that
/// it was.
pub proof fn lemma_settled<F>(
    a: &mut PreviewCache<F>,
    b: &mut PreviewCache<F>,
    c: &mut PreviewCache<F>,
    d: &mut PreviewCache<F>,
    url: &str,
    cached: CachedPreview<F>,
    why: String,
)
    requires
        old(a)@ == old(b)@,
        call_ensures(PreviewCache::<F>::settle, (a, url, Loaded::Decoded(cached)), ()),
        call_ensures(PreviewCache::<F>::insert_ready, (b, url, cached), ()),
        old(c)@ == old(d)@,
        call_ensures(PreviewCache::<F>::settle, (c, url, Loaded::<F>::Failed(why)), ()),
        call_ensures(PreviewCache::<F>::insert_failed, (d, url, why), ()),
    ensures
        final(a)@ == final(b)@,
        final(c)@ == final(d)@,
{
}

/// What is no GIF is stored as failed, and says so.
pub proof fn lemma_not_a_gif<F>(
    cache: &mut PreviewCache<F>,
    url: &str,
    after: PreviewCache<F>,
    was: Option<&PreviewEntry<F>>,
    is: Option<&PreviewEntry<F>>,
    before: PreviewCache<F>,
)
    requires
        old(cache).wf(),
        call_ensures(PreviewCache::<F>::settle, (cache, url, Loaded::<F>::NotGif), ()),
        before@ == old(cache)@,
        after@ == final(cache)@,
        call_ensures(PreviewCache::<F>::get, (&before, url), was),
        call_ensures(PreviewCache::<F>::get, (&after, url), is),
        old(cache)@.entries.len() <= old(cache)@.cap,
        was is Some,
        *was->0 is Requested,
    ensures
        is is Some,
        *is->0 is Failed,
        is->0->Failed_0@ == "not a gif"@,
{
    old(cache).lemma_wf();
    let v = old(cache)@;
    let w = choose|w: String| #![trigger w@]
        w@ == "not a gif"@ && final(cache)@ == v.finished(url@, PreviewEntry::Failed(w));
    crate::preview::lemma_finished_is_known(v, url@, PreviewEntry::<F>::Failed(w), url@);
}

/// The room of a cache is what it is set to, one at least and 4096 at most; growing
/// drops nothing, and what is on its way is never dropped.
pub proof fn lemma_room<F>(
    cache: &mut PreviewCache<F>,
    cap: usize,
    before: PreviewCache<F>,
    after: PreviewCache<F>,
    url: &str,
    was: Option<&PreviewEntry<F>>,
    is: Option<&PreviewEntry<F>>,
)
    requires
        old(cache).wf(),
        call_ensures(PreviewCache::<F>::set_cap, (cache, cap), ()),
        before@ == old(cache)@,
        after@ == final(cache)@,
        call_ensures(PreviewCache::<F>::get, (&before, url), was),
        call_ensures(PreviewCache::<F>::get, (&after, url), is),
    ensures
        cap == 0 ==> final(cache)@.cap == 1,
        1 <= cap <= 4096 ==> final(cache)@.cap == cap,
        cap > 4096 ==> final(cache)@.cap == 4096,
        old(cache)@.entries.len() <= final(cache)@.cap ==> final(cache)@.entries
            == old(cache)@.entries,
        is is Some ==> was is Some && *is->0 == *was->0,
        was is Some && *was->0 is Requested ==> is is Some && *is->0 is Requested,
{
    old(cache).lemma_wf();
    crate::preview::lemma_resized_known(old(cache)@, cap as int, url@);
}

/// Clearing leaves nothing, and the room as it is.
pub proof fn lemma_clearing<F>(
    cache: &mut PreviewCache<F>,
    after: PreviewCache<F>,
    url: &str,
    is: Option<&PreviewEntry<F>>,
    n: usize,
)
    requires
        call_ensures(PreviewCache::<F>::clear, (cache,), ()),
        after@ == final(cache)@,
        call_ensures(PreviewCache::<F>::get, (&after, url), is),
        call_ensures(PreviewCache::<F>::len, (&after,), n),
    ensures
        is is None,
        n == 0,
        final(cache)@.cap == old(cache)@.cap,
{
}

/// A new cache is empty, with the room that was asked for, and for one preview at
/// least.
pub proof fn lemma_new_cache<F>(cap: usize, r: PreviewCache<F>, url: &str, is: Option<&PreviewEntry<F>>, n: usize)
    requires
        call_ensures(PreviewCache::<F>::new, (cap,), r),
        call_ensures(PreviewCache::<F>::get, (&r, url), is),
        call_ensures(PreviewCache::<F>::len, (&r,), n),
    ensures
        is is None,
        n == 0,
        cap >= 1 ==> r@.cap == cap,
        cap == 0 ==> r@.cap == 1,
{
}

/// What is known of a preview is what its entry says.
pub proof fn lemma_entries_are_known<F>(c: PreviewCache<F>, url: &str, i: int, r: Option<&PreviewEntry<F>>)
    requires
        c.wf(),
        call_ensures(PreviewCache::<F>::get, (&c, url), r),
        0 <= i < c@.entries.len(),
        c@.entries[i].0 == url@,
    ensures
        r is Some,
        *r->0 == c@.entries[i].1,
{
    c.lemma_wf();
    crate::preview::lemma_entry_is_known(c@, i);
}

/// And there is nothing known of what has no entry.
pub proof fn lemma_nothing_else_is_known<F>(c: PreviewCache<F>, url: &str, r: Option<&PreviewEntry<F>>)
    requires
        c.wf(),
        call_ensures(PreviewCache::<F>::get, (&c, url), r),
        r is Some,
    ensures
        exists|i: int|
            0 <= i < c@.entries.len() && #[trigger] c@.entries[i].0 == url@ && c@.entries[i].1
                == *r->0,
{
    c.lemma_wf();
    crate::preview::lemma_known_has_entry(c@, url@);
}

/// What can be drawn is a preview that is there; its bytes can be decoded again, if
/// there are any.
pub proof fn lemma_ready<F>(
    c: PreviewCache<F>,
    url: &str,
    r: Option<&PreviewEntry<F>>,
    ready: Option<&CachedPreview<F>>,
    bytes: Option<std::sync::Arc<Vec<u8>>>,
)
    requires
        call_ensures(PreviewCache::<F>::get, (&c, url), r),
        call_ensures(PreviewCache::<F>::ready, (&c, url), ready),
        call_ensures(PreviewCache::<F>::cached_bytes, (&c, url), bytes),
    ensures
        ready is Some <==> r is Some && *r->0 is Ready,
        ready is Some ==> *r->0 == PreviewEntry::Ready(*ready->0),
        bytes is Some <==> ready is Some && ready->0.bytes@.len() > 0,
        bytes is Some ==> bytes->0@ == ready->0.bytes@,
{
}

/// Asking by way of `ensure_requested` is asking.
pub proof fn lemma_ensured<F>(
    a: &mut PreviewCache<F>,
    b: &mut PreviewCache<F>,
    url: &str,
    x: bool,
    y: bool,
)
    requires
        old(a)@ == old(b)@,
        call_ensures(crate::preview::ensure_requested::<F>, (a, url), x),
        call_ensures(PreviewCache::<F>::try_request, (b, url), y),
    ensures
        x == y,
        final(a)@ == final(b)@,
{
}

/// An enlarged preview is asked for by its address and size together, once for each.
pub proof fn lemma_focus_ensured<F>(
    a: &mut PreviewCache<F>,
    b: &mut PreviewCache<F>,
    url: &str,
    size: Size,
    name: String,
    key: &str,
    x: bool,
    y: bool,
)
    requires
        old(a)@ == old(b)@,
        call_ensures(crate::preview::focus_key, (url, size), name),
        key@ == name@,
        call_ensures(crate::preview::ensure_focus_requested::<F>, (a, url, size), x),
        call_ensures(PreviewCache::<F>::try_request, (b, key), y),
    ensures
        x == y,
        final(a)@ == final(b)@,
{
}

/// The keys of enlarged previews tell addresses and sizes apart, and each belongs to
/// its address.
pub proof fn lemma_focus_keys(
    u: &str,
    s: Size,
    v: &str,
    t: Size,
    a: String,
    b: String,
    key: &str,
    own: bool,
)
    requires
        call_ensures(crate::preview::focus_key, (u, s), a),
        call_ensures(crate::preview::focus_key, (v, t), b),
        key@ == a@,
        call_ensures(crate::preview::key_for_url, (key, u), own),
    ensures
        own,
        a@ == b@ ==> u@ == v@ && s == t,
{
    crate::preview::lemma_focus_key_belongs(u@, s);
    if a@ == b@ {
        crate::preview::lemma_focus_keys_differ(u@, s, v@, t);
    }
}

/// A key belongs to an address if it is the address, a mark, and something after it.
pub proof fn lemma_key_belongs(key: &str, url: &str, r: bool)
    requires
        call_ensures(crate::preview::key_for_url, (key, url), r),
    ensures
        r <==> {
            &&& key@.len() > url@.len()
            &&& key@[url@.len() as int] == '#'
            &&& forall|i: int| 0 <= i < url@.len() ==> #[trigger] key@[i] == url@[i]
        },
{
    if r {
        assert forall|i: int| 0 <= i < url@.len() implies #[trigger] key@[i] == url@[i] by {
            assert(key@.take(url@.len() as int)[i] == key@[i]);
        }
    } else if key@.len() > url@.len() && key@[url@.len() as int] == '#' && forall|i: int|
        0 <= i < url@.len() ==> #[trigger] key@[i] == url@[i] {
        assert(key@.take(url@.len() as int) == url@);
    }
}

/// The enlarged view shows the preview of its own size, if it is there; meanwhile the
/// newest of any size.
pub proof fn lemma_focus_view<F>(
    c: PreviewCache<F>,
    url: &str,
    want: Size,
    name: String,
    key: &str,
    exact: Option<&CachedPreview<F>>,
    any: Option<&CachedPreview<F>>,
    r: Option<&CachedPreview<F>>,
)
    requires
        call_ensures(crate::preview::focus_key, (url, want), name),
        key@ == name@,
        call_ensures(PreviewCache::<F>::ready, (&c, key), exact),
        call_ensures(PreviewCache::<F>::newest_ready_for, (&c, url), any),
        call_ensures(PreviewCache::<F>::focus_ready, (&c, url, want), r),
    ensures
        exact is Some ==> r is Some && *r->0 == *exact->0,
        exact is None ==> (r is Some <==> any is Some),
        exact is None && r is Some ==> *r->0 == *any->0,
{
}

proof fn lemma_newest<F>(entries: Seq<(Seq<char>, PreviewEntry<F>)>, url: Seq<char>) -> (at: int)
    ensures
        crate::preview::newest_ready(entries, url) is Some ==> {
            &&& 0 <= at < entries.len()
            &&& crate::preview::belongs(entries[at].0, url)
            &&& entries[at].1 == PreviewEntry::Ready(crate::preview::newest_ready(entries, url)->0)
            &&& forall|j: int|
                at < j < entries.len() ==> !(crate::preview::belongs(
                    (#[trigger] entries[j]).0,
                    url,
                ) && entries[j].1 is Ready)
        },
        crate::preview::newest_ready(entries, url) is None ==> forall|j: int|
            0 <= j < entries.len() ==> !(crate::preview::belongs((#[trigger] entries[j]).0, url)
                && entries[j].1 is Ready),
    decreases entries.len(),
{
    if entries.len() == 0 {
        0
    } else if crate::preview::belongs(entries.last().0, url) && entries.last().1 is Ready {
        entries.len() - 1
    } else {
        let shorter = entries.drop_last();
        let at = lemma_newest(shorter, url);
        assert forall|j: int|
            at < j < entries.len() && crate::preview::newest_ready(entries, url)
                is Some implies !(crate::preview::belongs((#[trigger] entries[j]).0, url)
            && entries[j].1 is Ready) by {
            if j < shorter.len() {
                assert(shorter[j] == entries[j]);
            }
        }
        assert forall|j: int|
            0 <= j < entries.len() && crate::preview::newest_ready(entries, url)
                is None implies !(crate::preview::belongs((#[trigger] entries[j]).0, url)
            && entries[j].1 is Ready) by {
            if j < shorter.len() {
                assert(shorter[j] == entries[j]);
            }
        }
        at
    }
}

/// The newest preview of an address is one that is there and belongs to it, and none
/// that is and does was used since.
pub proof fn lemma_newest_of_address<F>(
    c: PreviewCache<F>,
    url: &str,
    r: Option<&CachedPreview<F>>,
    j: int,
    key: &str,
    own: bool,
) -> (at: int)
    requires
        call_ensures(PreviewCache::<F>::newest_ready_for, (&c, url), r),
        0 <= j < c@.entries.len(),
        key@ == c@.entries[j].0,
        call_ensures(crate::preview::key_for_url, (key, url), own),
    ensures
        own && c@.entries[j].1 is Ready ==> r is Some && j <= at,
        r is Some ==> 0 <= at < c@.entries.len() && c@.entries[at].1 == PreviewEntry::Ready(*r->0),
{
    lemma_newest(c@.entries, url@)
}

/// The footer counts every preview once: as there, on its way or failed.
pub proof fn lemma_counted<F>(c: PreviewCache<F>, r: (usize, usize, usize), n: usize)
    requires
        call_ensures(crate::preview::preview_stats::<F>, (&c,), r),
        call_ensures(PreviewCache::<F>::len, (&c,), n),
    ensures
        r.0 + r.1 + r.2 == n,
        r.0 == how_many(c@.entries, 0, c@.entries.len() as int),
        r.1 == how_many(c@.entries, 1, c@.entries.len() as int),
        r.2 == how_many(c@.entries, 2, c@.entries.len() as int),
{
    lemma_tally(c@.entries);
}

/// How many of the first `n` entries are there (0), on their way (1) or failed (2).
pub open spec fn how_many<F>(
    entries: Seq<(Seq<char>, PreviewEntry<F>)>,
    kind: int,
    n: int,
) -> int
    decreases n,
{
    if n <= 0 {
        0
    } else {
        let e = entries[n - 1].1;
        how_many(entries, kind, n - 1) + if (kind == 0 && e is Ready) || (kind == 1
            && e is Requested) || (kind == 2 && e is Failed) {
            1int
        } else {
            0
        }
    }
}

proof fn lemma_how_many_same<F>(
    entries: Seq<(Seq<char>, PreviewEntry<F>)>,
    kind: int,
    n: int,
)
    requires
        0 <= n < entries.len(),
    ensures
        how_many(entries.drop_last(), kind, n) == how_many(entries, kind, n),
    decreases n,
{
    if n > 0 {
        lemma_how_many_same(entries, kind, n - 1);
        assert(entries.drop_last()[n - 1] == entries[n - 1]);
    }
}

proof fn lemma_tally<F>(entries: Seq<(Seq<char>, PreviewEntry<F>)>)
    ensures
        ({
            let t = crate::preview::tally(entries);
            let n = entries.len() as int;
            &&& t.0 == how_many(entries, 0, n)
            &&& t.1 == how_many(entries, 1, n)
            &&& t.2 == how_many(entries, 2, n)
            &&& t.0 + t.1 + t.2 == n
        }),
    decreases entries.len(),
{
    if entries.len() > 0 {
        let n = entries.len() - 1;
        lemma_tally(entries.drop_last());
        lemma_how_many_same(entries, 0, n);
        lemma_how_many_same(entries, 1, n);
        lemma_how_many_same(entries, 2, n);
    }
}

/// A mark stands for a preview that is awaited, and nothing where there is no address.
pub proof fn lemma_placeholder(url: &str, r: &'static str)
    requires
        call_ensures(crate::preview::placeholder, (url,), r),
    ensures
        url@.len() == 0 ==> r@.len() == 0,
        url@.len() > 0 ==> r@ == "…"@,
{
    reveal_strlit("");
}

/// The picker asks for the previews of the items on screen: for each that has an address
/// and that nothing is known of, a load is started and it is on its way.
pub proof fn lemma_screen_is_asked_for<F>(
    app: &mut App<F>,
    r: Vec<String>,
    idx: usize,
    before: PreviewCache<F>,
    after: PreviewCache<F>,
    url: &str,
    was: Option<&PreviewEntry<F>>,
    is: Option<&PreviewEntry<F>>,
)
    requires
        old(app).wf(),
        call_ensures(App::<F>::request_previews, (app,), r),
        old(app).mode is Graphics,
        old(app).cols >= 1,
        old(app).rows >= 1,
        shown(*old(app)).first_item <= idx < shown(*old(app)).items@.len(),
        idx < shown(*old(app)).first_item + old(app).cols * old(app).rows,
        before@ == old(app)@.previews->0,
        final(app)@.previews is Some ==> after@ == final(app)@.previews->0,
        url@ == shown(*old(app)).items@[idx as int].preview_url@,
        url@.len() > 0,
        call_ensures(PreviewCache::<F>::get, (&before, url), was),
        call_ensures(PreviewCache::<F>::get, (&after, url), is),
        was is None,
    ensures
        final(app)@.previews is Some,
        texts(r@).contains(url@),
        is is Some,
        *is->0 is Requested,
{
    let v = old(app)@;
    let cache = v.previews->0;
    old(app).mode->cache.lemma_wf();
    let cols = old(app).cols as int;
    let rows = old(app).rows as int;
    assert(0 < cols * rows <= u16::MAX * u16::MAX) by (nonlinear_arith)
        requires
            1 <= rows <= u16::MAX,
            1 <= cols <= u16::MAX,
    ;
    let slots = choose|slots: Seq<usize>|
        {
            let urls = crate::screen::preview_urls(v.grid().items, slots);
            &&& #[trigger] v.visible(slots)
            &&& texts(r@) == crate::preview::started(cache, urls)
            &&& final(app)@ == (PickerView {
                previews: Some(crate::preview::asked_all(cache, urls)),
                ..v
            })
        };
    let urls = crate::screen::preview_urls(v.grid().items, slots);
    assert(slots.contains(idx));
    let k = choose|k: int| 0 <= k < slots.len() && slots[k] == idx;
    assert(urls[k] == url@);
    crate::preview::lemma_all_are_fetched(cache, urls, url@);
}

proof fn lemma_started_from<F>(
    v: crate::preview::CacheView<F>,
    keys: Seq<Seq<char>>,
    key: Seq<char>,
)
    requires
        crate::preview::started(v, keys).contains(key),
    ensures
        keys.contains(key),
        key.len() > 0,
    decreases keys.len(),
{
    if keys.len() > 0 {
        let shorter = keys.drop_last();
        let s = crate::preview::started(v, keys);
        let i = choose|i: int| 0 <= i < s.len() && s[i] == key;
        let t = crate::preview::started(v, shorter);
        if i < t.len() {
            assert(t[i] == key);
            lemma_started_from(v, shorter, key);
            let k = choose|k: int| 0 <= k < shorter.len() && shorter[k] == key;
            assert(keys[k] == key);
        } else {
            assert(keys[keys.len() - 1] == key);
        }
    }
}

/// Nothing else is loaded: every load is the preview of an item on screen.
pub proof fn lemma_only_the_screen_is_asked_for<F>(
    app: &mut App<F>,
    r: Vec<String>,
    i: int,
)
    requires
        old(app).wf(),
        call_ensures(App::<F>::request_previews, (app,), r),
        old(app).cols >= 1,
        old(app).rows >= 1,
        0 <= i < r@.len(),
    ensures
        old(app).mode is Graphics,
        r@[i]@.len() > 0,
        exists|idx: int|
            {
                &&& shown(*old(app)).first_item <= idx < shown(*old(app)).items@.len()
                &&& idx < shown(*old(app)).first_item + old(app).cols * old(app).rows
                &&& (#[trigger] shown(*old(app)).items@[idx]).preview_url@ == r@[i]@
            },
{
    let v = old(app)@;
    let cols = old(app).cols as int;
    let rows = old(app).rows as int;
    assert(0 < cols * rows <= u16::MAX * u16::MAX) by (nonlinear_arith)
        requires
            1 <= rows <= u16::MAX,
            1 <= cols <= u16::MAX,
    ;
    let cache = v.previews->0;
    let slots = choose|slots: Seq<usize>|
        {
            let urls = crate::screen::preview_urls(v.grid().items, slots);
            &&& #[trigger] v.visible(slots)
            &&& texts(r@) == crate::preview::started(cache, urls)
            &&& final(app)@ == (PickerView {
                previews: Some(crate::preview::asked_all(cache, urls)),
                ..v
            })
        };
    let urls = crate::screen::preview_urls(v.grid().items, slots);
    assert(texts(r@)[i] == r@[i]@);
    assert(crate::preview::started(cache, urls).contains(r@[i]@));
    lemma_started_from(cache, urls, r@[i]@);
    let k = choose|k: int| 0 <= k < urls.len() && urls[k] == r@[i]@;
    let idx = slots[k];
    assert(slots.contains(idx));
    assert(shown(*old(app)).items@[idx as int].preview_url@ == r@[i]@);
}

/// Drawing asks for what is then on screen: the preview of each item there that has an
/// address and that nothing was known of is among the loads.
pub proof fn lemma_drawing_asks_for_the_screen<F>(
    app: &mut App<F>,
    area: crate::geometry::Rect,
    r: crate::draw::Screen,
    idx: usize,
    before: PreviewCache<F>,
    url: &str,
    was: Option<&PreviewEntry<F>>,
)
    requires
        old(app).wf(),
        call_ensures(App::<F>::draw, (app, area), r),
        old(app).mode is Graphics,
        shown(*final(app)).first_item <= idx < shown(*final(app)).items@.len(),
        idx < shown(*final(app)).first_item + final(app).cols * final(app).rows,
        before@ == old(app)@.previews->0,
        url@ == shown(*final(app)).items@[idx as int].preview_url@,
        url@.len() > 0,
        call_ensures(PreviewCache::<F>::get, (&before, url), was),
        was is None,
    ensures
        texts(r.loads@).contains(url@),
{
    let fit = old(app)@.fitted(r.areas.grid.width, r.areas.grid.height);
    let cache = fit.previews->0;
    old(app).mode->cache.lemma_wf();
    let old_cache = old(app)@.previews->0;
    let twice = crate::grid::at_least_one(
        crate::grid::capped_product(
            crate::grid::capped_product(fit.cols as int, fit.rows as int),
            2,
        ),
    );
    assert(cache == old_cache.resized(twice));
    crate::preview::lemma_resized_wf(old_cache, twice);
    crate::preview::lemma_resized_known(old_cache, twice, url@);
    let cols = fit.cols as int;
    let rows = fit.rows as int;
    assert(0 < cols * rows <= u16::MAX * u16::MAX) by (nonlinear_arith)
        requires
            1 <= rows <= u16::MAX,
            1 <= cols <= u16::MAX,
    ;
    let slots = choose|slots: Seq<usize>|
        {
            let urls = crate::screen::preview_urls(fit.grid().items, slots);
            &&& #[trigger] fit.visible(slots)
            &&& texts(r.loads@) == crate::preview::started(cache, urls)
            &&& final(app)@ == (PickerView {
                previews: Some(crate::preview::asked_all(cache, urls)),
                ..fit
            })
        };
    let urls = crate::screen::preview_urls(fit.grid().items, slots);
    assert(slots.contains(idx));
    let k = choose|k: int| 0 <= k < slots.len() && slots[k] == idx;
    assert(urls[k] == url@);
    crate::preview::lemma_all_are_fetched(cache, urls, url@);
}

proof fn lemma_started_in_order<F>(
    v: crate::preview::CacheView<F>,
    keys: Seq<Seq<char>>,
    i: int,
    j: int,
) -> (at: (int, int))
    requires
        0 <= i < j < crate::preview::started(v, keys).len(),
    ensures
        0 <= at.0 < at.1 < keys.len(),
        keys[at.0] == crate::preview::started(v, keys)[i],
        keys[at.1] == crate::preview::started(v, keys)[j],
    decreases keys.len(),
{
    let shorter = keys.drop_last();
    let s = crate::preview::started(v, keys);
    let t = crate::preview::started(v, shorter);
    if j < t.len() {
        let at = lemma_started_in_order(v, shorter, i, j);
        assert(shorter[at.0] == keys[at.0] && shorter[at.1] == keys[at.1]);
        at
    } else {
        assert(t.contains(s[i])) by {
            assert(t[i] == s[i]);
        }
        lemma_started_from(v, shorter, s[i]);
        let a = choose|a: int| 0 <= a < shorter.len() && shorter[a] == s[i];
        assert(keys[a] == s[i]);
        (a, keys.len() - 1)
    }
}

/// Loads are started from the cursor outwards: of two loads, the first is the preview of
/// an item that is nearer to the cursor, or as near and before it.
pub proof fn lemma_nearest_are_loaded_first<F>(
    app: &mut App<F>,
    r: Vec<String>,
    i: int,
    j: int,
)
    requires
        old(app).wf(),
        call_ensures(App::<F>::request_previews, (app,), r),
        old(app).cols >= 1,
        0 <= i < j < r@.len(),
    ensures
        exists|a: int, b: int|
            #![trigger shown(*old(app)).items@[a], shown(*old(app)).items@[b]]
            {
                let g = shown(*old(app));
                let x = crate::grid::distance(a, g.selected as int, old(app).cols as int);
                let y = crate::grid::distance(b, g.selected as int, old(app).cols as int);
                &&& 0 <= a < g.items@.len() && 0 <= b < g.items@.len()
                &&& g.items@[a].preview_url@ == r@[i]@
                &&& g.items@[b].preview_url@ == r@[j]@
                &&& x < y || (x == y && a < b)
            },
{
    let v = old(app)@;
    let cache = v.previews->0;
    let slots = choose|slots: Seq<usize>|
        {
            let urls = crate::screen::preview_urls(v.grid().items, slots);
            &&& #[trigger] v.visible(slots)
            &&& texts(r@) == crate::preview::started(cache, urls)
            &&& final(app)@ == (PickerView {
                previews: Some(crate::preview::asked_all(cache, urls)),
                ..v
            })
        };
    let urls = crate::screen::preview_urls(v.grid().items, slots);
    assert(texts(r@)[i] == r@[i]@ && texts(r@)[j] == r@[j]@);
    let at = lemma_started_in_order(cache, urls, i, j);
    let a = slots[at.0];
    let b = slots[at.1];
    assert(slots.contains(a) && slots.contains(b));
    assert(crate::grid::nearer(a as int, b as int, v.grid().selected, old(app).cols as int));
    assert(urls[at.0] == v.grid().items[a as int].preview_url@);
    assert(urls[at.1] == v.grid().items[b as int].preview_url@);
    let g = shown(*old(app));
    assert(g.items@[a as int].preview_url@ == r@[i]@ && g.items@[b as int].preview_url@ == r@[j]@);
}

/// Asking for previews changes the cache alone; without images nothing is asked for.
pub proof fn lemma_asking_changes_the_cache<F>(app: &mut App<F>, r: Vec<String>)
    requires
        call_ensures(App::<F>::request_previews, (app,), r),
    ensures
        final(app)@ == (PickerView { previews: final(app)@.previews, ..old(app)@ }),
        old(app).mode is Fallback ==> r@.len() == 0 && final(app)@ == old(app)@,
{
}

/// The end of a load is stored in the cache of the picker, as the cache stores it.
pub proof fn lemma_picker_settles<F>(app: &mut App<F>, cache: &mut PreviewCache<F>, url: &str, cached: CachedPreview<F>)
    requires
        call_ensures(App::<F>::preview_loaded, (app, url, Loaded::Decoded(cached)), ()),
        old(app)@.previews is Some ==> old(cache)@ == old(app)@.previews->0,
        call_ensures(PreviewCache::<F>::insert_ready, (cache, url, cached), ()),
    ensures
        old(app)@.previews is Some ==> final(app)@ == (PickerView {
            previews: Some(final(cache)@),
            ..old(app)@
        }),
        old(app)@.previews is None ==> final(app)@ == old(app)@,
{
}

/// What is asked for or comes in is the most recently used then; the others keep their
/// order.
pub proof fn lemma_most_recently_used<F>(
    a: &mut PreviewCache<F>,
    b: &mut PreviewCache<F>,
    url: &str,
    r: bool,
    cached: CachedPreview<F>,
)
    requires
        old(a).wf(),
        old(b).wf(),
        call_ensures(PreviewCache::<F>::try_request, (a, url), r),
        old(a)@.entries.len() < old(a)@.cap,
        call_ensures(PreviewCache::<F>::insert_ready, (b, url, cached), ()),
        old(b)@.known(url@) == Some(PreviewEntry::<F>::Requested),
        old(b)@.entries.len() <= old(b)@.cap,
    ensures
        r ==> final(a)@.entries == old(a)@.entries.push((url@, PreviewEntry::<F>::Requested)),
        final(b)@.entries.len() == old(b)@.entries.len(),
        final(b)@.entries.last() == (url@, PreviewEntry::Ready(cached)),
        exists|p: int|
            0 <= p < old(b)@.entries.len() && #[trigger] old(b)@.entries[p].0 == url@
                && final(b)@.entries.drop_last() == old(b)@.entries.remove(p),
{
    old(a).lemma_wf();
    old(b).lemma_wf();
    crate::preview::lemma_touched_last(old(a)@, url@, PreviewEntry::<F>::Requested);
    crate::preview::lemma_touched_last(old(b)@, url@, PreviewEntry::Ready(cached));
    crate::preview::lemma_known_has_entry(old(b)@, url@);
}

/// A cache that is made smaller keeps what was used last, if nothing is on its way.
pub proof fn lemma_shrinking_keeps_the_newest<F>(cache: &mut PreviewCache<F>, cap: usize)
    requires
        old(cache).wf(),
        call_ensures(PreviewCache::<F>::set_cap, (cache, cap), ()),
        1 <= cap <= 4096,
        cap <= old(cache)@.entries.len(),
        forall|i: int|
            0 <= i < old(cache)@.entries.len() ==> !((#[trigger] old(cache)@.entries[i]).1
                is Requested),
    ensures
        final(cache)@.entries == old(cache)@.entries.skip(old(cache)@.entries.len() - cap),
{
    crate::preview::lemma_oldest_dropped(old(cache)@.entries, cap as int);
}

/// A full cache drops what was not used for longest to make room, and nothing else, if
/// nothing is on its way.
pub proof fn lemma_full_cache_drops_the_oldest<F>(cache: &mut PreviewCache<F>, url: &str, r: bool)
    requires
        old(cache).wf(),
        call_ensures(PreviewCache::<F>::try_request, (cache, url), r),
        r,
        old(cache)@.entries.len() == old(cache)@.cap,
        forall|i: int|
            0 <= i < old(cache)@.entries.len() ==> !((#[trigger] old(cache)@.entries[i]).1
                is Requested),
    ensures
        final(cache)@.entries == old(cache)@.entries.skip(1).push(
            (url@, PreviewEntry::<F>::Requested),
        ),
{
    let v = old(cache)@;
    old(cache).lemma_wf();
    crate::preview::lemma_touched_last(v, url@, PreviewEntry::<F>::Requested);
    let more = v.entries.push((url@, PreviewEntry::<F>::Requested));
    crate::preview::lemma_oldest_one_dropped(more, v.cap);
    assert(more.remove(0) == v.entries.skip(1).push((url@, PreviewEntry::<F>::Requested)));
}

/// A GIF starts with `GIF89a`; what does not is none, and gives no preview.
pub proof fn lemma_no_gif(bytes: &[u8], encoder: Encoder, now: u128, size: Size, a: Result<
    Option<CachedPreview<Encoded>>,
    DecodeError<ratatui_image::errors::Errors>,
>, b: Result<Option<CachedPreview<Encoded>>, DecodeError<ratatui_image::errors::Errors>>)
    requires
        call_ensures(crate::decode::decode_preview, (bytes, &encoder, now), a),
        call_ensures(crate::decode::decode_focus, (bytes, &encoder, size, now), b),
        bytes@.len() < 6 || bytes@[0] != 0x47 || bytes@[1] != 0x49 || bytes@[2] != 0x46 || bytes@[3]
            != 0x38 || bytes@[4] != 0x39 || bytes@[5] != 0x61,
    ensures
        a is Ok && a->Ok_0 is None,
        b is Ok && b->Ok_0 is None,
{
    if crate::decode::looks_like_gif(bytes@) {
        let t = bytes@.take(6);
        assert(t[0] == 71 && t[1] == 73 && t[2] == 70 && t[3] == 56 && t[4] == 57 && t[5] == 97);
    }
}

/// A preview that came of a GIF has its frames, 24 at most, each with how long it is
/// shown: no less than 40 milliseconds. It keeps the bytes and the time.
pub proof fn lemma_preview_of_a_gif(bytes: &[u8], encoder: Encoder, now: u128, r: Result<
    Option<CachedPreview<Encoded>>,
    DecodeError<ratatui_image::errors::Errors>,
>, i: int)
    requires
        call_ensures(crate::decode::decode_preview, (bytes, &encoder, now), r),
        r is Ok,
        r->Ok_0 is Some,
        0 <= i < r->Ok_0->0.frames@.len(),
    ensures
        1 <= r->Ok_0->0.frames@.len() <= 24,
        r->Ok_0->0.delays@.len() == r->Ok_0->0.frames@.len(),
        r->Ok_0->0.delays@[i] >= 40,
        r->Ok_0->0.frames@[i].size.width <= 12,
        r->Ok_0->0.frames@[i].size.height <= 4,
        r->Ok_0->0.bytes@ == bytes@,
        r->Ok_0->0.loaded_at == now,
{
    let given = choose|given: Seq<Result<GifFrame, image::ImageError>>|
        crate::decode::gif_frames(bytes@, crate::decode::MAX_FRAMES) == Some(
            #[trigger] crate::decode::frames_data(given),
        ) && given.len() <= crate::decode::MAX_FRAMES && crate::decode::shown_as(
            given,
            bytes@,
            encoder,
            Size { width: 12, height: 4 },
            Scaling::Fit,
            now,
            r,
        );
    assert(given[i] is Ok);
}

/// So has a preview of any size, and its frames are no larger than that.
pub proof fn lemma_preview_of_any_size(
    bytes: &[u8],
    encoder: Encoder,
    size: Size,
    scaling: Scaling,
    now: u128,
    r: Result<Option<CachedPreview<Encoded>>, DecodeError<ratatui_image::errors::Errors>>,
    i: int,
)
    requires
        call_ensures(
            crate::decode::decode_preview_at,
            (bytes, &encoder, size, scaling, now),
            r,
        ),
    ensures
        bytes@.len() < 6 || bytes@[0] != 0x47 || bytes@[1] != 0x49 || bytes@[2] != 0x46 || bytes@[3]
            != 0x38 || bytes@[4] != 0x39 || bytes@[5] != 0x61 ==> r is Ok && r->Ok_0 is None,
        r is Ok && r->Ok_0 is Some && 0 <= i < r->Ok_0->0.frames@.len() ==> {
            let c = r->Ok_0->0;
            &&& 1 <= c.frames@.len() <= 24
            &&& c.delays@.len() == c.frames@.len()
            &&& c.delays@[i] >= 40
            &&& c.frames@[i].size.width <= size.width
            &&& c.frames@[i].size.height <= size.height
            &&& c.bytes@ == bytes@
            &&& c.loaded_at == now
        },
{
    if crate::decode::looks_like_gif(bytes@) {
        let t = bytes@.take(6);
        assert(t[0] == 71 && t[1] == 73 && t[2] == 70 && t[3] == 56 && t[4] == 57 && t[5] == 97);
    }
    if r is Ok && r->Ok_0 is Some && 0 <= i < r->Ok_0->0.frames@.len() {
        let given = choose|given: Seq<Result<GifFrame, image::ImageError>>|
            crate::decode::gif_frames(bytes@, crate::decode::MAX_FRAMES) == Some(
                #[trigger] crate::decode::frames_data(given),
            ) && given.len() <= crate::decode::MAX_FRAMES && crate::decode::shown_as(
                given,
                bytes@,
                encoder,
                size,
                scaling,
                now,
                r,
            );
        assert(given[i] is Ok);
    }
}

/// The enlarged view is decoded at its own size, and fills it: every frame that has
/// pixels reaches from side to side or from top to bottom.
pub proof fn lemma_enlarged_preview(
    bytes: &[u8],
    encoder: Encoder,
    size: Size,
    now: u128,
    r: Result<Option<CachedPreview<Encoded>>, DecodeError<ratatui_image::errors::Errors>>,
    i: int,
) -> (f: GifFrame)
    requires
        call_ensures(crate::decode::decode_focus, (bytes, &encoder, size, now), r),
        r is Ok,
        r->Ok_0 is Some,
        0 <= i < r->Ok_0->0.frames@.len(),
    ensures
        1 <= r->Ok_0->0.frames@.len() <= 24,
        r->Ok_0->0.delays@[i] >= 40,
        r->Ok_0->0.bytes@ == bytes@,
        r->Ok_0->0.loaded_at == now,
        encoder.gives(f, size, Scaling::Enlarge, Ok(r->Ok_0->0.frames@[i])),
        f.width > 0 && f.height > 0 ==> r->Ok_0->0.frames@[i].size.width == size.width
            || r->Ok_0->0.frames@[i].size.height == size.height,
{
    let given = choose|given: Seq<Result<GifFrame, image::ImageError>>|
        crate::decode::gif_frames(bytes@, crate::decode::MAX_FRAMES) == Some(
            #[trigger] crate::decode::frames_data(given),
        ) && given.len() <= crate::decode::MAX_FRAMES && crate::decode::shown_as(
            given,
            bytes@,
            encoder,
            size,
            Scaling::Enlarge,
            now,
            r,
        );
    assert(given[i] is Ok);
    given[i]->Ok_0
}

/// Frames can be brought to any size that is not empty; to be made larger, its pixels
/// have to be countable.
pub proof fn lemma_sizes_taken(encoder: Encoder, size: Size, fit: bool, large: bool)
    requires
        call_ensures(Encoder::can_take, (&encoder, size, Scaling::Fit), fit),
        call_ensures(Encoder::can_take, (&encoder, size, Scaling::Enlarge), large),
    ensures
        fit <==> size.width > 0 && size.height > 0,
        large <==> fit && size.width * encoder.cell().width <= 65535 && size.height
            * encoder.cell().height <= 65535,
{
}

/// An encoder is for the terminal that it was made for, whose cells have a size.
pub proof fn lemma_encoder(picker: ratatui_image::picker::Picker, r: Option<Encoder>)
    requires
        call_ensures(Encoder::new, (picker,), r),
        r is Some,
    ensures
        r->0.terminal() == picker,
        r->0.cell().width > 0,
        r->0.cell().height > 0,
{
}

/// A frame is shown for as long as it says, in whole milliseconds, and for 40 of them at
/// least; frames come in the order in which they were decoded.
pub proof fn lemma_frames_in_order<F, E, P: Fn(&GifFrame, Size, Scaling) -> Result<F, E>>(
    given: Vec<Result<GifFrame, image::ImageError>>,
    bytes: &[u8],
    prepare: P,
    size: Size,
    scaling: Scaling,
    now: u128,
    r: Result<Option<CachedPreview<F>>, DecodeError<E>>,
    i: int,
)
    requires
        call_ensures(
            crate::decode::assemble::<F, E, P>,
            (given, bytes, prepare, size, scaling, now),
            r,
        ),
        r is Ok,
        0 <= i < given@.len(),
    ensures
        r->Ok_0 is Some,
        ({
            let c = r->Ok_0->0;
            let f = given@[i]->Ok_0;
            let ms = if f.delay_denom == 0 {
                f.delay_numer as int
            } else {
                f.delay_numer as int / f.delay_denom as int
            };
            &&& given@[i] is Ok
            &&& c.frames@.len() == given@.len()
            &&& prepare.ensures((&f, size, scaling), Ok(c.frames@[i]))
            &&& ms >= 40 ==> c.delays@[i] == ms
            &&& ms < 40 ==> c.delays@[i] == 40
        }),
{
    assert(given@[i] is Ok);
}

/// A GIF that fits a cell of the grid is not enlarged there; the enlarged view is filled
/// from side to side or from top to bottom.
pub proof fn lemma_only_the_enlarged_view_enlarges(
    encoder: Encoder,
    frame: GifFrame,
    size: Size,
    fit: Result<Encoded, ratatui_image::errors::Errors>,
    large: Result<Encoded, ratatui_image::errors::Errors>,
)
    requires
        call_ensures(Encoder::encode, (&encoder, &frame, size, Scaling::Fit), fit),
        call_ensures(Encoder::encode, (&encoder, &frame, size, Scaling::Enlarge), large),
        fit is Ok,
        large is Ok,
        frame.width > 0,
        frame.height > 0,
    ensures
        fit->Ok_0.size.width <= size.width && fit->Ok_0.size.height <= size.height,
        large->Ok_0.size.width <= size.width && large->Ok_0.size.height <= size.height,
        (fit->Ok_0.size.width - 1) * encoder.cell().width < frame.width,
        (fit->Ok_0.size.height - 1) * encoder.cell().height < frame.height,
        large->Ok_0.size.width == size.width || large->Ok_0.size.height == size.height,
{
}

} // verus!
