//! Inline previews: animation timing and the bounded cache of decoded GIFs.

use std::collections::VecDeque;
use std::sync::Arc;

use vstd::hash_map::StringHashMap;
use vstd::hash_set::StringHashSet;
use vstd::prelude::*;
use vstd::string::*;

use crate::geometry::Size;
use crate::text::{decimal, is_digit, lemma_decimal_reads_back, push_decimal, same, to_chars};

verus! {

/// Hard ceiling for the preview cache, guarding against absurd terminal sizes.
/// Doubles as the cap when the visible grid is somehow larger than this.
pub const MAX_CACHE_CAP: usize = 4096;

/// The number of nanoseconds in a millisecond.
pub const NANOS_PER_MILLI: u128 = 1_000_000;

/// The sum of some delays.
pub open spec fn total_delay(delays: Seq<u64>) -> int
    decreases delays.len(),
{
    if delays.len() == 0 {
        0
    } else {
        delays[0] + total_delay(delays.drop_first())
    }
}

/// Which of some frames shown one after the other is on at time `t`, each shown
/// for its delay.
pub open spec fn frame_on(delays: Seq<u64>, t: int) -> int
    decreases delays.len(),
{
    if delays.len() == 0 || t < delays[0] {
        0
    } else {
        1 + frame_on(delays.drop_first(), t - delays[0])
    }
}

/// Which frame of an animation that repeats forever is on, a time after it
/// started. An animation that takes no time stays on its first frame.
pub open spec fn frame_after(delays: Seq<u64>, elapsed: int) -> int {
    if total_delay(delays) == 0 {
        0
    } else {
        frame_on(delays, elapsed % total_delay(delays))
    }
}

proof fn lemma_total_split(delays: Seq<u64>, i: int)
    requires
        0 <= i < delays.len(),
    ensures
        total_delay(delays.skip(i)) == delays[i] + total_delay(delays.skip(i + 1)),
{
    assert(delays.skip(i).drop_first() == delays.skip(i + 1));
}

proof fn lemma_total_bounds(delays: Seq<u64>)
    ensures
        0 <= total_delay(delays) <= delays.len() * u64::MAX,
    decreases delays.len(),
{
    if delays.len() > 0 {
        lemma_total_bounds(delays.drop_first());
        assert(delays.len() * u64::MAX == (delays.len() - 1) * u64::MAX + u64::MAX)
            by (nonlinear_arith);
    }
}

/// The frame that is on is one of the frames: it has begun, and has not ended.
pub proof fn lemma_frame_on(delays: Seq<u64>, t: int)
    requires
        0 <= t < total_delay(delays),
    ensures
        0 <= frame_on(delays, t) < delays.len(),
        total_delay(delays.take(frame_on(delays, t))) <= t,
        t < total_delay(delays.take(frame_on(delays, t) + 1)),
    decreases delays.len(),
{
    let i = frame_on(delays, t);
    if t < delays[0] {
        assert(delays.take(0).len() == 0);
        assert(delays.take(1).drop_first().len() == 0);
        assert(total_delay(delays.take(1).drop_first()) == 0);
    } else {
        let rest = delays.drop_first();
        lemma_frame_on(rest, t - delays[0]);
        assert(delays.take(i).drop_first() == rest.take(i - 1));
        assert(delays.take(i + 1).drop_first() == rest.take(i));
    }
}

/// An animation repeats: after its whole length it shows the same frame again,
/// and it only ever shows one of its frames.
pub proof fn lemma_frames_repeat(delays: Seq<u64>, elapsed: int)
    requires
        0 <= elapsed,
    ensures
        frame_after(delays, elapsed + total_delay(delays)) == frame_after(delays, elapsed),
        delays.len() > 0 ==> 0 <= frame_after(delays, elapsed) < delays.len(),
{
    let total = total_delay(delays);
    lemma_total_bounds(delays);
    if total > 0 {
        vstd::arithmetic::div_mod::lemma_mod_add_multiples_vanish(elapsed, total);
        lemma_frame_on(delays, elapsed % total);
        assert((elapsed + total) % total == elapsed % total) by (nonlinear_arith)
            requires
                total > 0,
        ;
    }
}

/// The frame that is on after `elapsed` milliseconds, given how many
/// milliseconds each frame is shown.
pub fn frame_index(delays: &[u64], elapsed: u128) -> (r: usize)
    ensures
        r == frame_after(delays@, elapsed as int),
{
    let mut total: u128 = 0;
    let mut i: usize = 0;
    assert(delays@.skip(0) == delays@);
    while i < delays.len()
        invariant
            i <= delays@.len(),
            total + total_delay(delays@.skip(i as int)) == total_delay(delays@),
            total <= i * u64::MAX,
        decreases delays@.len() - i,
    {
        proof {
            lemma_total_split(delays@, i as int);
            assert(i * u64::MAX + u64::MAX == (i + 1) * u64::MAX) by (nonlinear_arith);
            assert((i + 1) * u64::MAX <= u128::MAX) by (nonlinear_arith)
                requires
                    i + 1 <= u64::MAX,
            ;
        }
        total = total + delays[i] as u128;
        i += 1;
    }
    assert(delays@.skip(i as int).len() == 0);
    if total == 0 {
        return 0;
    }
    let t: u128 = elapsed % total;
    let mut acc: u128 = 0;
    let mut k: usize = 0;
    proof {
        lemma_frame_on(delays@, t as int);
    }
    while k < delays.len()
        invariant
            k <= delays@.len(),
            t < total,
            total == total_delay(delays@),
            t == elapsed % total,
            acc <= t,
            acc + total_delay(delays@.skip(k as int)) == total,
            frame_on(delays@, t as int) == k + frame_on(delays@.skip(k as int), t - acc),
            frame_on(delays@, t as int) < delays@.len(),
        decreases delays@.len() - k,
    {
        proof {
            lemma_total_split(delays@, k as int);
            lemma_total_bounds(delays@.skip(k + 1));
            assert(delays@.skip(k as int).drop_first() == delays@.skip(k + 1));
        }
        acc = acc + delays[k] as u128;
        if t < acc {
            return k;
        }
        k += 1;
    }
    assert(delays@.skip(k as int).len() == 0);
    0
}

/// A decoded GIF: its frames, ready for the terminal, and how many milliseconds
/// each is shown; when it was loaded, in nanoseconds; and the bytes it came
/// from, kept so that the enlarged view can decode them at a bigger size
/// without fetching them again.
pub struct CachedPreview<F> {
    pub frames: Vec<F>,
    pub delays: Vec<u64>,
    pub loaded_at: u128,
    pub bytes: Arc<Vec<u8>>,
}

impl<F> CachedPreview<F> {
    /// The milliseconds since the preview was loaded; none before that.
    pub open spec fn age(&self, now: u128) -> int {
        if now < self.loaded_at {
            0
        } else {
            (now - self.loaded_at) / NANOS_PER_MILLI as int
        }
    }

    /// The frame to show at `now`, in nanoseconds.
    pub fn frame(&self, now: u128) -> (r: &F)
        requires
            self.frames@.len() > 0,
        ensures
            ({
                let on = frame_after(self.delays@, self.age(now));
                *r == self.frames@[if on < self.frames@.len() {
                    on
                } else {
                    self.frames@.len() - 1
                }]
            }),
    {
        let elapsed: u128 = if now < self.loaded_at {
            0
        } else {
            (now - self.loaded_at) / NANOS_PER_MILLI
        };
        let on: usize = frame_index(self.delays.as_slice(), elapsed);
        let last: usize = self.frames.len() - 1;
        if on < last {
            &self.frames[on]
        } else {
            &self.frames[last]
        }
    }

    /// How many frames there are.
    pub fn frame_count(&self) -> (r: usize)
        ensures
            r == self.frames@.len(),
    {
        self.frames.len()
    }

    /// The bytes that the preview was decoded from.
    pub fn raw_bytes(&self) -> (r: &Arc<Vec<u8>>)
        ensures
            *r == self.bytes,
    {
        &self.bytes
    }
}

/// What is known of a preview.
pub enum PreviewEntry<F> {
    /// It was asked for, and is on its way.
    Requested,
    /// It is there.
    Ready(CachedPreview<F>),
    /// It could not be had, for the reason given.
    Failed(String),
}

/// What the cache holds: the previews by their keys, the least recently used
/// first, and how many it keeps.
#[verifier::ext_equal]
pub struct CacheView<F> {
    pub entries: Seq<(Seq<char>, PreviewEntry<F>)>,
    pub cap: int,
}

/// The place of the entry with the given key, or the number of entries if there
/// is none.
pub open spec fn key_place<F>(entries: Seq<(Seq<char>, PreviewEntry<F>)>, key: Seq<char>) -> int
    decreases entries.len(),
{
    if entries.len() == 0 || entries[0].0 == key {
        0
    } else {
        1 + key_place(entries.drop_first(), key)
    }
}

/// What is known of the preview with the given key.
pub open spec fn lookup<F>(
    entries: Seq<(Seq<char>, PreviewEntry<F>)>,
    key: Seq<char>,
) -> Option<PreviewEntry<F>> {
    let p = key_place(entries, key);
    if p < entries.len() {
        Some(entries[p].1)
    } else {
        None
    }
}

/// The entries once the one with the given key is the most recently used, with
/// a new value.
pub open spec fn touched<F>(
    entries: Seq<(Seq<char>, PreviewEntry<F>)>,
    key: Seq<char>,
    entry: PreviewEntry<F>,
) -> Seq<(Seq<char>, PreviewEntry<F>)> {
    let p = key_place(entries, key);
    if p < entries.len() {
        entries.remove(p).push((key, entry))
    } else {
        entries.push((key, entry))
    }
}

/// The place of the least recently used entry that is not on its way, or the
/// number of entries if all are.
pub open spec fn first_settled<F>(entries: Seq<(Seq<char>, PreviewEntry<F>)>) -> int
    decreases entries.len(),
{
    if entries.len() == 0 || !(entries[0].1 is Requested) {
        0
    } else {
        1 + first_settled(entries.drop_first())
    }
}

/// The entries that are left when the least recently used of those that are not
/// on their way go, one by one, until at most `cap` are left.
pub open spec fn evicted<F>(
    entries: Seq<(Seq<char>, PreviewEntry<F>)>,
    cap: int,
) -> Seq<(Seq<char>, PreviewEntry<F>)>
    decreases entries.len(),
{
    let p = first_settled(entries);
    if entries.len() <= cap || p < 0 || p >= entries.len() {
        entries
    } else {
        evicted(entries.remove(p), cap)
    }
}

/// Whether no key occurs twice.
pub open spec fn distinct_keys<F>(entries: Seq<(Seq<char>, PreviewEntry<F>)>) -> bool {
    forall|i: int, j: int|
        0 <= i < j < entries.len() ==> (#[trigger] entries[i]).0 != (#[trigger] entries[j]).0
}

/// Whether there are at most `cap` entries, or none that could be dropped.
pub open spec fn bounded<F>(entries: Seq<(Seq<char>, PreviewEntry<F>)>, cap: int) -> bool {
    ||| entries.len() <= cap
    ||| forall|i: int| 0 <= i < entries.len() ==> (#[trigger] entries[i]).1 is Requested
}

impl<F> CacheView<F> {
    /// No key occurs twice; there is room for one preview at least; and there
    /// are more previews than there is room for only while all are on their
    /// way.
    pub open spec fn wf(self) -> bool {
        &&& self.cap >= 1
        &&& distinct_keys(self.entries)
        &&& bounded(self.entries, self.cap)
    }

    /// What is known of a preview.
    pub open spec fn known(self, key: Seq<char>) -> Option<PreviewEntry<F>> {
        lookup(self.entries, key)
    }

    /// Whether asking for a preview starts a load: it has a key and nothing is
    /// known of it yet.
    pub open spec fn wants(self, key: Seq<char>) -> bool {
        key.len() > 0 && self.known(key) is None
    }

    /// The cache once a preview was asked for.
    pub open spec fn requested(self, key: Seq<char>) -> CacheView<F> {
        if self.wants(key) {
            CacheView {
                entries: evicted(touched(self.entries, key, PreviewEntry::Requested), self.cap),
                ..self
            }
        } else {
            self
        }
    }

    /// The cache once a load ended with `entry`. A result that nobody waits for
    /// is dropped.
    pub open spec fn finished(self, key: Seq<char>, entry: PreviewEntry<F>) -> CacheView<F> {
        if self.known(key) is Some && self.known(key)->0 is Requested {
            CacheView { entries: evicted(touched(self.entries, key, entry), self.cap), ..self }
        } else {
            self
        }
    }

    /// The cache with room for `cap` previews, within its limits.
    pub open spec fn resized(self, cap: int) -> CacheView<F> {
        let kept = if cap < 1 {
            1
        } else if cap > MAX_CACHE_CAP {
            MAX_CACHE_CAP as int
        } else {
            cap
        };
        CacheView { entries: evicted(self.entries, kept), cap: kept }
    }

    /// The cache with nothing in it.
    pub open spec fn cleared(self) -> CacheView<F> {
        CacheView { entries: Seq::empty(), ..self }
    }
}

proof fn lemma_key_place<F>(entries: Seq<(Seq<char>, PreviewEntry<F>)>, key: Seq<char>)
    ensures
        0 <= key_place(entries, key) <= entries.len(),
        key_place(entries, key) < entries.len() ==> entries[key_place(entries, key)].0 == key,
        forall|j: int| 0 <= j < key_place(entries, key) ==> (#[trigger] entries[j]).0 != key,
    decreases entries.len(),
{
    if entries.len() > 0 && entries[0].0 != key {
        let rest = entries.drop_first();
        lemma_key_place(rest, key);
        let p = key_place(entries, key);
        assert forall|j: int| 0 <= j < p implies (#[trigger] entries[j]).0 != key by {
            if j > 0 {
                assert(entries[j] == rest[j - 1]);
            }
        }
        if p < entries.len() {
            assert(entries[p] == rest[p - 1]);
        }
    }
}

proof fn lemma_key_place_is<F>(entries: Seq<(Seq<char>, PreviewEntry<F>)>, key: Seq<char>, p: int)
    requires
        0 <= p <= entries.len(),
        p < entries.len() ==> entries[p].0 == key,
        forall|j: int| 0 <= j < p ==> (#[trigger] entries[j]).0 != key,
    ensures
        key_place(entries, key) == p,
{
    lemma_key_place(entries, key);
    let q = key_place(entries, key);
    if q < p {
        assert(entries[q].0 != key);
    } else if p < q {
        assert(entries[p].0 != key);
    }
}

proof fn lemma_first_settled<F>(entries: Seq<(Seq<char>, PreviewEntry<F>)>)
    ensures
        0 <= first_settled(entries) <= entries.len(),
        first_settled(entries) < entries.len() ==> !(entries[first_settled(
            entries,
        )].1 is Requested),
        forall|j: int|
            0 <= j < first_settled(entries) ==> (#[trigger] entries[j]).1 is Requested,
    decreases entries.len(),
{
    if entries.len() > 0 && entries[0].1 is Requested {
        let rest = entries.drop_first();
        lemma_first_settled(rest);
        let p = first_settled(entries);
        assert forall|j: int| 0 <= j < p implies (#[trigger] entries[j]).1 is Requested by {
            if j > 0 {
                assert(entries[j] == rest[j - 1]);
            }
        }
        if p < entries.len() {
            assert(entries[p] == rest[p - 1]);
        }
    }
}

proof fn lemma_first_settled_is<F>(entries: Seq<(Seq<char>, PreviewEntry<F>)>, p: int)
    requires
        0 <= p <= entries.len(),
        p < entries.len() ==> !(entries[p].1 is Requested),
        forall|j: int| 0 <= j < p ==> (#[trigger] entries[j]).1 is Requested,
    ensures
        first_settled(entries) == p,
{
    lemma_first_settled(entries);
    let q = first_settled(entries);
    if q < p {
        assert(entries[q].1 is Requested);
    } else if p < q {
        assert(entries[p].1 is Requested);
    }
}

proof fn lemma_evicted_bounded<F>(entries: Seq<(Seq<char>, PreviewEntry<F>)>, cap: int)
    ensures
        bounded(evicted(entries, cap), cap),
    decreases entries.len(),
{
    lemma_first_settled(entries);
    let p = first_settled(entries);
    if entries.len() > cap && p < entries.len() {
        lemma_evicted_bounded(entries.remove(p), cap);
    }
}

proof fn lemma_lookup_removed<F>(
    entries: Seq<(Seq<char>, PreviewEntry<F>)>,
    p: int,
    key: Seq<char>,
)
    requires
        distinct_keys(entries),
        0 <= p < entries.len(),
    ensures
        distinct_keys(entries.remove(p)),
        lookup(entries.remove(p), key) == (if key == entries[p].0 {
            None
        } else {
            lookup(entries, key)
        }),
{
    let rest = entries.remove(p);
    lemma_key_place(entries, key);
    lemma_key_place(rest, key);
    let q = key_place(entries, key);
    let r = key_place(rest, key);
    assert forall|i: int, j: int| 0 <= i < j < rest.len() implies (#[trigger] rest[i]).0 != (
    #[trigger] rest[j]).0 by {
        let a = if i < p { i } else { i + 1 };
        let b = if j < p { j } else { j + 1 };
        assert(rest[i] == entries[a] && rest[j] == entries[b]);
    }
    if r < rest.len() {
        let a = if r < p { r } else { r + 1 };
        assert(rest[r] == entries[a]);
        if q < a {
            assert(entries[q].0 != entries[a].0);
        } else if a < q {
            assert(entries[a].0 != key);
        }
    } else if q < entries.len() && q != p {
        let b = if q < p { q } else { q - 1 };
        assert(rest[b] == entries[q]);
    }
}

proof fn lemma_lookup_pushed<F>(
    entries: Seq<(Seq<char>, PreviewEntry<F>)>,
    key: Seq<char>,
    entry: PreviewEntry<F>,
    other: Seq<char>,
)
    requires
        distinct_keys(entries),
        lookup(entries, key) is None,
    ensures
        distinct_keys(entries.push((key, entry))),
        lookup(entries.push((key, entry)), other) == (if other == key {
            Some(entry)
        } else {
            lookup(entries, other)
        }),
{
    let more = entries.push((key, entry));
    lemma_key_place(entries, key);
    lemma_key_place(entries, other);
    let q = key_place(entries, other);
    if other == key {
        lemma_key_place_is(more, other, entries.len() as int);
    } else if q < entries.len() {
        lemma_key_place_is(more, other, q);
    } else {
        lemma_key_place_is(more, other, more.len() as int);
    }
}

proof fn lemma_lookup_touched<F>(
    entries: Seq<(Seq<char>, PreviewEntry<F>)>,
    key: Seq<char>,
    entry: PreviewEntry<F>,
    other: Seq<char>,
)
    requires
        distinct_keys(entries),
    ensures
        distinct_keys(touched(entries, key, entry)),
        lookup(touched(entries, key, entry), other) == (if other == key {
            Some(entry)
        } else {
            lookup(entries, other)
        }),
{
    lemma_key_place(entries, key);
    let p = key_place(entries, key);
    if p < entries.len() {
        lemma_lookup_removed(entries, p, key);
        lemma_lookup_removed(entries, p, other);
        lemma_lookup_pushed(entries.remove(p), key, entry, other);
    } else {
        lemma_lookup_pushed(entries, key, entry, other);
    }
}

proof fn lemma_lookup_evicted<F>(
    entries: Seq<(Seq<char>, PreviewEntry<F>)>,
    cap: int,
    key: Seq<char>,
)
    requires
        distinct_keys(entries),
    ensures
        distinct_keys(evicted(entries, cap)),
        lookup(evicted(entries, cap), key) is Some ==> lookup(evicted(entries, cap), key) == lookup(
            entries,
            key,
        ),
        lookup(entries, key) is Some && lookup(entries, key)->0 is Requested ==> lookup(
            evicted(entries, cap),
            key,
        ) == lookup(entries, key),
    decreases entries.len(),
{
    lemma_first_settled(entries);
    let p = first_settled(entries);
    if entries.len() > cap && p < entries.len() {
        lemma_lookup_removed(entries, p, key);
        lemma_lookup_evicted(entries.remove(p), cap, key);
        if key == entries[p].0 {
            lemma_key_place_is_at(entries, p);
        }
    }
}

proof fn lemma_key_place_is_at<F>(entries: Seq<(Seq<char>, PreviewEntry<F>)>, p: int)
    requires
        distinct_keys(entries),
        0 <= p < entries.len(),
    ensures
        lookup(entries, entries[p].0) == Some(entries[p].1),
{
    assert forall|j: int| 0 <= j < p implies (#[trigger] entries[j]).0 != entries[p].0 by {
    }
    lemma_key_place_is(entries, entries[p].0, p);
}

/// A preview that is on its way stays so whatever other preview is asked for or
/// comes in, and whatever the cap is set to: nothing drops it but `clear`.
pub proof fn lemma_in_flight_stays<F>(
    v: CacheView<F>,
    key: Seq<char>,
    other: Seq<char>,
    entry: PreviewEntry<F>,
    cap: int,
)
    requires
        v.wf(),
        v.known(key) == Some(PreviewEntry::<F>::Requested),
        other != key,
    ensures
        v.requested(other).known(key) == v.known(key),
        v.requested(key) == v,
        v.finished(other, entry).known(key) == v.known(key),
        v.resized(cap).known(key) == v.known(key),
{
    lemma_lookup_touched(v.entries, other, PreviewEntry::<F>::Requested, key);
    lemma_lookup_evicted(
        touched(v.entries, other, PreviewEntry::<F>::Requested),
        v.cap,
        key,
    );
    lemma_lookup_touched(v.entries, other, entry, key);
    lemma_lookup_evicted(touched(v.entries, other, entry), v.cap, key);
    lemma_lookup_evicted(v.entries, v.resized(cap).cap, key);
}

/// Asking for a preview twice starts one load.
pub proof fn lemma_requested_once<F>(v: CacheView<F>, key: Seq<char>)
    requires
        v.wf(),
    ensures
        !v.requested(key).wants(key),
        v.requested(key).requested(key) == v.requested(key),
        v.wants(key) ==> v.requested(key).known(key) == Some(PreviewEntry::<F>::Requested),
{
    if v.wants(key) {
        lemma_lookup_touched(v.entries, key, PreviewEntry::<F>::Requested, key);
        lemma_lookup_evicted(touched(v.entries, key, PreviewEntry::<F>::Requested), v.cap, key);
    }
}

/// A preview is never fetched again once it is known, be it there, on its way
/// or failed.
pub proof fn lemma_known_not_wanted<F>(v: CacheView<F>, key: Seq<char>)
    requires
        v.known(key) is Some,
    ensures
        !v.wants(key),
        v.requested(key) == v,
{
}

/// A result that comes in late, after the cache was cleared or a second time,
/// changes nothing.
pub proof fn lemma_late_results_dropped<F>(
    v: CacheView<F>,
    key: Seq<char>,
    first: PreviewEntry<F>,
    second: PreviewEntry<F>,
)
    requires
        v.wf(),
        !(first is Requested),
    ensures
        v.cleared().finished(key, first) == v.cleared(),
        v.finished(key, first).finished(key, second) == v.finished(key, first),
{
    if v.known(key) is Some && v.known(key)->0 is Requested {
        lemma_lookup_touched(v.entries, key, first, key);
        lemma_lookup_evicted(touched(v.entries, key, first), v.cap, key);
    }
}

/// With room for all that is known of, a preview that was on its way is known as what
/// came in, and what is known of the others stays.
pub proof fn lemma_finished_is_known<F>(
    v: CacheView<F>,
    key: Seq<char>,
    entry: PreviewEntry<F>,
    other: Seq<char>,
)
    requires
        v.wf(),
        v.known(key) == Some(PreviewEntry::<F>::Requested),
        v.entries.len() <= v.cap,
    ensures
        v.finished(key, entry).known(key) == Some(entry),
        other != key ==> v.finished(key, entry).known(other) == v.known(other),
{
    lemma_key_place(v.entries, key);
    let more = touched(v.entries, key, entry);
    assert(more.len() == v.entries.len());
    lemma_lookup_touched(v.entries, key, entry, key);
    lemma_lookup_touched(v.entries, key, entry, other);
    assert(evicted(more, v.cap) == more);
}

/// Setting the cap makes nothing known that was not, changes nothing of what stays
/// known, and drops nothing that is on its way.
pub proof fn lemma_resized_known<F>(v: CacheView<F>, cap: int, key: Seq<char>)
    requires
        v.wf(),
    ensures
        v.resized(cap).known(key) is Some ==> v.resized(cap).known(key) == v.known(key),
        v.known(key) == Some(PreviewEntry::<F>::Requested) ==> v.resized(cap).known(key)
            == v.known(key),
        v.entries.len() <= v.resized(cap).cap ==> v.resized(cap).entries == v.entries,
{
    lemma_lookup_evicted(v.entries, v.resized(cap).cap, key);
}

/// A cache with another cap is well formed.
pub proof fn lemma_resized_wf<F>(v: CacheView<F>, cap: int)
    requires
        v.wf(),
    ensures
        v.resized(cap).wf(),
{
    let kept = v.resized(cap).cap;
    lemma_evicted_bounded(v.entries, kept);
    lemma_lookup_evicted(v.entries, kept, Seq::empty());
}

/// What is asked for or comes in goes to the end, the others keep their order.
pub proof fn lemma_touched_last<F>(v: CacheView<F>, key: Seq<char>, entry: PreviewEntry<F>)
    requires
        v.wf(),
    ensures
        v.known(key) is None ==> touched(v.entries, key, entry) == v.entries.push((key, entry)),
        v.known(key) is Some ==> exists|p: int|
            0 <= p < v.entries.len() && #[trigger] v.entries[p].0 == key && touched(
                v.entries,
                key,
                entry,
            ) == v.entries.remove(p).push((key, entry)),
{
    lemma_key_place(v.entries, key);
    let p = key_place(v.entries, key);
    if p < v.entries.len() {
        assert(v.entries[p].0 == key);
    }
}

/// With nothing on its way, the oldest entries go and the newest stay.
pub proof fn lemma_oldest_dropped<F>(entries: Seq<(Seq<char>, PreviewEntry<F>)>, cap: int)
    requires
        0 <= cap <= entries.len(),
        forall|i: int| 0 <= i < entries.len() ==> !((#[trigger] entries[i]).1 is Requested),
    ensures
        evicted(entries, cap) == entries.skip(entries.len() - cap),
    decreases entries.len(),
{
    if entries.len() > cap {
        assert(!(entries[0].1 is Requested));
        assert(first_settled(entries) == 0);
        let rest = entries.remove(0);
        assert forall|i: int| 0 <= i < rest.len() implies !((#[trigger] rest[i]).1 is Requested) by {
            assert(rest[i] == entries[i + 1]);
        }
        lemma_oldest_dropped(rest, cap);
        assert(rest.skip(rest.len() - cap) == entries.skip(entries.len() - cap));
    } else {
        assert(entries.skip(0) == entries);
    }
}

/// One entry too many, and the oldest that is not on its way goes.
pub proof fn lemma_oldest_one_dropped<F>(entries: Seq<(Seq<char>, PreviewEntry<F>)>, cap: int)
    requires
        entries.len() == cap + 1,
        entries.len() > 0,
        !(entries[0].1 is Requested),
    ensures
        evicted(entries, cap) == entries.remove(0),
{
    assert(first_settled(entries) == 0);
    reveal_with_fuel(evicted, 2);
}

/// What an entry says is known under its key.
pub proof fn lemma_entry_is_known<F>(v: CacheView<F>, i: int)
    requires
        v.wf(),
        0 <= i < v.entries.len(),
    ensures
        v.known(v.entries[i].0) == Some(v.entries[i].1),
{
    lemma_key_place_is_at(v.entries, i);
}

/// What is known under a key is what an entry says.
pub proof fn lemma_known_has_entry<F>(v: CacheView<F>, key: Seq<char>)
    requires
        v.known(key) is Some,
    ensures
        exists|i: int|
            0 <= i < v.entries.len() && (#[trigger] v.entries[i]).0 == key && v.known(key) == Some(
                v.entries[i].1,
            ),
{
    lemma_key_place(v.entries, key);
    let p = key_place(v.entries, key);
    assert(v.entries[p].0 == key);
}

/// The cache once previews were asked for, one after the other.
pub open spec fn asked_all<F>(v: CacheView<F>, keys: Seq<Seq<char>>) -> CacheView<F>
    decreases keys.len(),
{
    if keys.len() == 0 {
        v
    } else {
        asked_all(v, keys.drop_last()).requested(keys.last())
    }
}

/// The loads that asking for previews, one after the other, starts.
pub open spec fn started<F>(v: CacheView<F>, keys: Seq<Seq<char>>) -> Seq<Seq<char>>
    decreases keys.len(),
{
    if keys.len() == 0 {
        Seq::empty()
    } else if asked_all(v, keys.drop_last()).wants(keys.last()) {
        started(v, keys.drop_last()).push(keys.last())
    } else {
        started(v, keys.drop_last())
    }
}

proof fn lemma_requested_wf<F>(v: CacheView<F>, key: Seq<char>)
    requires
        v.wf(),
    ensures
        v.requested(key).wf(),
{
    if v.wants(key) {
        let more = touched(v.entries, key, PreviewEntry::<F>::Requested);
        lemma_lookup_touched(v.entries, key, PreviewEntry::<F>::Requested, key);
        lemma_lookup_evicted(more, v.cap, key);
        lemma_evicted_bounded(more, v.cap);
    }
}

/// As long as there is room for all, asking for previews drops none: what was
/// known stays known, and every preview that was asked for is known afterwards.
pub proof fn lemma_room_for_all<F>(v: CacheView<F>, keys: Seq<Seq<char>>, key: Seq<char>)
    requires
        v.wf(),
        v.entries.len() + keys.len() <= v.cap,
    ensures
        asked_all(v, keys).wf(),
        asked_all(v, keys).cap == v.cap,
        asked_all(v, keys).entries.len() <= v.entries.len() + keys.len(),
        v.known(key) is Some ==> asked_all(v, keys).known(key) == v.known(key),
        keys.contains(key) && key.len() > 0 ==> asked_all(v, keys).known(key) is Some,
    decreases keys.len(),
{
    if keys.len() > 0 {
        let before = asked_all(v, keys.drop_last());
        let last = keys.last();
        lemma_room_for_all(v, keys.drop_last(), key);
        lemma_requested_wf(before, last);
        if before.wants(last) {
            let more = touched(before.entries, last, PreviewEntry::<F>::Requested);
            lemma_key_place(before.entries, last);
            assert(more.len() == before.entries.len() + 1);
            assert(before.requested(last).entries == more);
            lemma_lookup_touched(before.entries, last, PreviewEntry::<F>::Requested, key);
        }
        if keys.contains(key) && key != last {
            let i = choose|i: int| 0 <= i < keys.len() && keys[i] == key;
            assert(keys.drop_last()[i] == key);
        }
    }
}

/// How many of the first `n` entries are not on their way.
pub open spec fn settled_before<F>(entries: Seq<(Seq<char>, PreviewEntry<F>)>, n: int) -> int
    decreases n,
{
    if n <= 0 {
        0
    } else {
        settled_before(entries, n - 1) + if entries[n - 1].1 is Requested {
            0int
        } else {
            1int
        }
    }
}

proof fn lemma_settled_bounds<F>(entries: Seq<(Seq<char>, PreviewEntry<F>)>, n: int)
    requires
        0 <= n,
    ensures
        0 <= settled_before(entries, n) <= n,
    decreases n,
{
    if n > 0 {
        lemma_settled_bounds(entries, n - 1);
    }
}

proof fn lemma_settled_none<F>(entries: Seq<(Seq<char>, PreviewEntry<F>)>, n: int)
    requires
        0 <= n <= entries.len(),
    ensures
        n <= first_settled(entries) ==> settled_before(entries, n) == 0,
        n > first_settled(entries) ==> settled_before(entries, n) > 0,
    decreases n,
{
    lemma_first_settled(entries);
    if n > 0 {
        lemma_settled_none(entries, n - 1);
        if n <= first_settled(entries) {
            assert(entries[n - 1].1 is Requested);
        }
    }
}

proof fn lemma_settled_same<F>(
    a: Seq<(Seq<char>, PreviewEntry<F>)>,
    b: Seq<(Seq<char>, PreviewEntry<F>)>,
    n: int,
)
    requires
        0 <= n <= a.len(),
        n <= b.len(),
        forall|i: int| 0 <= i < n ==> a[i] == #[trigger] b[i],
    ensures
        settled_before(a, n) == settled_before(b, n),
    decreases n,
{
    if n > 0 {
        lemma_settled_same(a, b, n - 1);
        assert(a[n - 1] == b[n - 1]);
    }
}

proof fn lemma_settled_removed<F>(entries: Seq<(Seq<char>, PreviewEntry<F>)>, p: int, n: int)
    requires
        0 <= p < n <= entries.len(),
        !(entries[p].1 is Requested),
    ensures
        settled_before(entries.remove(p), n - 1) == settled_before(entries, n) - 1,
    decreases n,
{
    let rest = entries.remove(p);
    if n == p + 1 {
        lemma_settled_same(rest, entries, p);
    } else {
        lemma_settled_removed(entries, p, n - 1);
        assert(rest[n - 2] == entries[n - 1]);
    }
}

/// Which previews go to make room: a preview that is not on its way stays exactly
/// if as many such previews as are too many were used before it.
proof fn lemma_evicted_place<F>(
    entries: Seq<(Seq<char>, PreviewEntry<F>)>,
    cap: int,
    p: int,
) -> (q: int)
    requires
        distinct_keys(entries),
        0 <= p < entries.len(),
        !(entries[p].1 is Requested),
    ensures
        ({
            let after = evicted(entries, cap);
            &&& after.len() <= entries.len()
            &&& if settled_before(entries, p) >= entries.len() - cap {
                &&& 0 <= q < after.len()
                &&& after[q] == entries[p]
                &&& settled_before(after, q) == settled_before(entries, p) - (entries.len()
                    - after.len())
            } else {
                lookup(after, entries[p].0) is None
            }
        }),
    decreases entries.len(),
{
    lemma_first_settled(entries);
    lemma_settled_none(entries, p);
    let f = first_settled(entries);
    if f > p {
        assert(entries[p].1 is Requested);
    }
    if entries.len() <= cap {
        lemma_settled_bounds(entries, p);
        p
    } else {
        let rest = entries.remove(f);
        lemma_lookup_removed(entries, f, entries[p].0);
        if f == p {
            lemma_lookup_evicted(rest, cap, entries[p].0);
            lemma_evicted_shorter(rest, cap);
            p
        } else {
            assert(rest[p - 1] == entries[p]);
            lemma_settled_removed(entries, f, p);
            lemma_evicted_place(rest, cap, p - 1)
        }
    }
}

proof fn lemma_evicted_shorter<F>(entries: Seq<(Seq<char>, PreviewEntry<F>)>, cap: int)
    ensures
        evicted(entries, cap).len() <= entries.len(),
    decreases entries.len(),
{
    lemma_first_settled(entries);
    let p = first_settled(entries);
    if entries.len() > cap && p < entries.len() {
        lemma_evicted_shorter(entries.remove(p), cap);
    }
}

proof fn lemma_asked_place<F>(v: CacheView<F>, keys: Seq<Seq<char>>, p: int) -> (q: int)
    requires
        v.wf(),
        0 <= p < v.entries.len(),
        !(v.entries[p].1 is Requested),
    ensures
        ({
            let a = asked_all(v, keys);
            let over = v.entries.len() + started(v, keys).len();
            &&& a.wf()
            &&& a.cap == v.cap
            &&& if settled_before(v.entries, p) + v.cap >= over {
                &&& 0 <= q < a.entries.len()
                &&& a.entries[q] == v.entries[p]
                &&& settled_before(a.entries, q) == settled_before(v.entries, p) - (over
                    - a.entries.len())
            } else {
                a.known(v.entries[p].0) is Some ==> a.known(v.entries[p].0)->0 is Requested
            }
        }),
    decreases keys.len(),
{
    let key = v.entries[p].0;
    if keys.len() == 0 {
        lemma_settled_bounds(v.entries, p);
        p
    } else {
        let b = asked_all(v, keys.drop_last());
        let last = keys.last();
        let q0 = lemma_asked_place(v, keys.drop_last(), p);
        lemma_requested_wf(b, last);
        if !b.wants(last) {
            q0
        } else {
            let more = touched(b.entries, last, PreviewEntry::<F>::Requested);
            lemma_key_place(b.entries, last);
            assert(more == b.entries.push((last, PreviewEntry::<F>::Requested)));
            lemma_lookup_touched(b.entries, last, PreviewEntry::<F>::Requested, key);
            lemma_lookup_evicted(more, b.cap, key);
            let before = v.entries.len() + started(v, keys.drop_last()).len();
            if settled_before(v.entries, p) + v.cap >= before {
                lemma_settled_same(more, b.entries, q0);
                lemma_evicted_place(more, b.cap, q0)
            } else {
                q0
            }
        }
    }
}

/// A preview that is there stays so while others are asked for exactly as long
/// as enough others were used before it: as many as the loads that are started
/// and the previews that there are exceed the room. So one that is shown is
/// dropped only if there is no older one to drop in its place.
pub proof fn lemma_shown_stays<F>(v: CacheView<F>, keys: Seq<Seq<char>>, p: int)
    requires
        v.wf(),
        0 <= p < v.entries.len(),
        !(v.entries[p].1 is Requested),
    ensures
        asked_all(v, keys).known(v.entries[p].0) == Some(v.entries[p].1) <==> settled_before(
            v.entries,
            p,
        ) + v.cap >= v.entries.len() + started(v, keys).len(),
{
    let q = lemma_asked_place(v, keys, p);
    let a = asked_all(v, keys);
    if settled_before(v.entries, p) + v.cap >= v.entries.len() + started(v, keys).len() {
        lemma_key_place_is_at(a.entries, q);
    }
}

proof fn lemma_settled_all<F>(entries: Seq<(Seq<char>, PreviewEntry<F>)>, n: int)
    requires
        0 <= n <= entries.len(),
        forall|i: int| 0 <= i < n ==> !((#[trigger] entries[i]).1 is Requested),
    ensures
        settled_before(entries, n) == n,
    decreases n,
{
    if n > 0 {
        lemma_settled_all(entries, n - 1);
        assert(!(entries[n - 1].1 is Requested));
    }
}

proof fn lemma_started_len<F>(v: CacheView<F>, keys: Seq<Seq<char>>)
    ensures
        started(v, keys).len() <= keys.len(),
    decreases keys.len(),
{
    if keys.len() > 0 {
        lemma_started_len(v, keys.drop_last());
    }
}

/// Room for twice a screen of previews is enough headroom: with nothing older
/// still on its way, the previews of the last screen stay while a whole other
/// screen is asked for.
pub proof fn lemma_headroom<F>(v: CacheView<F>, keys: Seq<Seq<char>>, screen: int, p: int)
    requires
        v.wf(),
        keys.len() <= screen,
        2 * screen <= v.cap,
        0 <= p < v.entries.len(),
        v.entries.len() - screen <= p,
        forall|i: int| 0 <= i <= p ==> !((#[trigger] v.entries[i]).1 is Requested),
    ensures
        asked_all(v, keys).known(v.entries[p].0) == Some(v.entries[p].1),
{
    lemma_settled_all(v.entries, p);
    lemma_started_len(v, keys);
    assert(!(v.entries[p].1 is Requested));
    lemma_shown_stays(v, keys, p);
}

/// Whatever room there is, every preview that is asked for is fetched unless it
/// is known: its load is started, and it is on its way afterwards. A preview that
/// was on its way still is.
pub proof fn lemma_all_are_fetched<F>(v: CacheView<F>, keys: Seq<Seq<char>>, key: Seq<char>)
    requires
        v.wf(),
    ensures
        asked_all(v, keys).wf(),
        v.known(key) is None && keys.contains(key) && key.len() > 0 ==> asked_all(v, keys).known(
            key,
        ) == Some(PreviewEntry::<F>::Requested) && started(v, keys).contains(key),
        v.known(key) is None && !keys.contains(key) ==> asked_all(v, keys).known(key) is None,
        v.known(key) == Some(PreviewEntry::<F>::Requested) ==> asked_all(v, keys).known(key)
            == v.known(key),
    decreases keys.len(),
{
    if keys.len() > 0 {
        let shorter = keys.drop_last();
        let b = asked_all(v, shorter);
        let last = keys.last();
        lemma_all_are_fetched(v, shorter, key);
        lemma_requested_wf(b, last);
        lemma_requested_once(b, last);
        assert(keys == shorter.push(last));
        assert(keys.contains(key) <==> shorter.contains(key) || key == last) by {
            if keys.contains(key) && key != last {
                let i = choose|i: int| 0 <= i < keys.len() && keys[i] == key;
                assert(shorter[i] == key);
            }
            if shorter.contains(key) {
                let i = choose|i: int| 0 <= i < shorter.len() && shorter[i] == key;
                assert(keys[i] == key);
            }
            assert(keys[keys.len() - 1] == last);
        }
        let more = touched(b.entries, last, PreviewEntry::<F>::Requested);
        lemma_lookup_touched(b.entries, last, PreviewEntry::<F>::Requested, key);
        lemma_lookup_evicted(more, b.cap, key);
        let loads = started(v, shorter);
        if loads.contains(key) {
            let i = choose|i: int| 0 <= i < loads.len() && loads[i] == key;
            assert(loads.push(last)[i] == key);
        }
        assert(loads.push(last)[loads.len() as int] == last);
    }
}

/// Growing the cap keeps every preview.
pub proof fn lemma_growing_keeps<F>(v: CacheView<F>, cap: int)
    requires
        v.wf(),
        v.entries.len() <= cap <= MAX_CACHE_CAP,
    ensures
        v.resized(cap).entries == v.entries,
{
}

/// What is dropped to make room is what was not used for longest: of two
/// previews that are not on their way, the older never outlives the newer.
pub proof fn lemma_oldest_go_first<F>(
    entries: Seq<(Seq<char>, PreviewEntry<F>)>,
    cap: int,
    i: int,
    j: int,
)
    requires
        distinct_keys(entries),
        0 <= i < j < entries.len(),
        !(entries[i].1 is Requested),
        !(entries[j].1 is Requested),
        lookup(evicted(entries, cap), entries[i].0) is Some,
    ensures
        lookup(evicted(entries, cap), entries[j].0) is Some,
    decreases entries.len(),
{
    lemma_first_settled(entries);
    let p = first_settled(entries);
    if entries.len() > cap && p < entries.len() {
        let rest = entries.remove(p);
        assert(p <= i) by {
            if i < p {
                assert(entries[i].1 is Requested);
            }
        }
        lemma_lookup_removed(entries, p, entries[i].0);
        lemma_lookup_evicted(rest, cap, entries[i].0);
        if p == i {
            assert(lookup(rest, entries[i].0) is None);
        } else {
            assert(rest[i - 1] == entries[i] && rest[j - 1] == entries[j]);
            lemma_oldest_go_first(rest, cap, i - 1, j - 1);
        }
    } else {
        lemma_key_place_is_at(entries, j);
    }
}

/// Whether `key` is the key of `url` at some decode size.
pub open spec fn belongs(key: Seq<char>, url: Seq<char>) -> bool {
    &&& key.len() > url.len()
    &&& key.take(url.len() as int) == url
    &&& key[url.len() as int] == '#'
}

/// Whether `key` is a focus-cache key built from `url` (any size).
pub fn key_for_url(key: &str, url: &str) -> (r: bool)
    ensures
        r == belongs(key@, url@),
{
    let k: Vec<char> = to_chars(key);
    let u: Vec<char> = to_chars(url);
    if k.len() <= u.len() {
        return false;
    }
    let mut i: usize = 0;
    while i < u.len()
        invariant
            i <= u@.len(),
            u@.len() < k@.len(),
            k@ == key@,
            u@ == url@,
            forall|j: int| 0 <= j < i ==> k@[j] == u@[j],
        decreases u@.len() - i,
    {
        if k[i] != u[i] {
            assert(key@.take(url@.len() as int)[i as int] != url@[i as int]);
            return false;
        }
        i += 1;
    }
    assert(key@.take(url@.len() as int) == url@);
    k[u.len()] == '#'
}

/// The focus-cache key of a preview: its address and the decode size.
pub open spec fn focus_name(url: Seq<char>, size: Size) -> Seq<char> {
    url + "#"@ + decimal(size.width as nat) + "x"@ + decimal(size.height as nat)
}

/// Focus-cache key: the preview URL plus the decode size, so that a terminal
/// resize produces a fresh entry instead of being taken for frames decoded for
/// the old size.
pub fn focus_key(url: &str, size: Size) -> (r: String)
    ensures
        r@ == focus_name(url@, size),
{
    let mut out: String = url.to_owned();
    out.append("#");
    push_decimal(&mut out, size.width as u128);
    out.append("x");
    push_decimal(&mut out, size.height as u128);
    out
}

/// Keys of different addresses or sizes never collide.
pub proof fn lemma_focus_keys_differ(u1: Seq<char>, s1: Size, u2: Seq<char>, s2: Size)
    requires
        focus_name(u1, s1) == focus_name(u2, s2),
    ensures
        u1 == u2,
        s1 == s2,
{
    reveal_strlit("#");
    reveal_strlit("x");
    let w1 = decimal(s1.width as nat);
    let w2 = decimal(s2.width as nat);
    let h1 = decimal(s1.height as nat);
    let h2 = decimal(s2.height as nat);
    lemma_decimal_reads_back(s1.width as nat);
    lemma_decimal_reads_back(s2.width as nat);
    lemma_decimal_reads_back(s1.height as nat);
    lemma_decimal_reads_back(s2.height as nat);
    lemma_one_mark(u1, w1, h1, u2, w2, h2);
    lemma_one_mark(u2, w2, h2, u1, w1, h1);
    let k = focus_name(u1, s1);
    let a = u1.len() as int;
    assert(u1 == k.take(a));
    assert(u2 == k.take(a));
    assert(w1.len() == w2.len()) by {
        if w1.len() < w2.len() {
            assert(k[a + 1 + w1.len()] == 'x');
            assert(k[a + 1 + w1.len()] == w2[w1.len() as int]);
            assert(is_digit(w2[w1.len() as int]));
        } else if w2.len() < w1.len() {
            assert(k[a + 1 + w2.len()] == 'x');
            assert(k[a + 1 + w2.len()] == w1[w2.len() as int]);
            assert(is_digit(w1[w2.len() as int]));
        }
    }
    assert(w1 == k.subrange(a + 1, a + 1 + w1.len()));
    assert(w2 == k.subrange(a + 1, a + 1 + w1.len()));
    assert(h1 == k.skip(a + 2 + w1.len()));
    assert(h2 == k.skip(a + 2 + w1.len()));
}

proof fn lemma_one_mark(
    u1: Seq<char>,
    w1: Seq<char>,
    h1: Seq<char>,
    u2: Seq<char>,
    w2: Seq<char>,
    h2: Seq<char>,
)
    requires
        u1 + "#"@ + w1 + "x"@ + h1 == u2 + "#"@ + w2 + "x"@ + h2,
        forall|i: int| 0 <= i < w1.len() ==> is_digit(#[trigger] w1[i]),
        forall|i: int| 0 <= i < h1.len() ==> is_digit(#[trigger] h1[i]),
    ensures
        u2.len() <= u1.len(),
{
    reveal_strlit("#");
    reveal_strlit("x");
    let k = u1 + "#"@ + w1 + "x"@ + h1;
    if u1.len() < u2.len() {
        let at = u2.len() as int;
        let same_key = u2 + "#"@ + w2 + "x"@ + h2;
        assert(k == same_key);
        assert(at < same_key.len());
        assert(same_key[at] == '#');
        assert(k[at] == '#');
        let off = at - u1.len() - 1;
        if off < w1.len() {
            assert(k[at] == w1[off]);
            assert(is_digit(w1[off]));
        } else if off == w1.len() {
            assert(k[at] == 'x');
        } else {
            assert(k[at] == h1[off - w1.len() - 1]);
            assert(is_digit(h1[off - w1.len() - 1]));
        }
    }
}

/// A key belongs to the address that it was made from.
pub proof fn lemma_focus_key_belongs(url: Seq<char>, size: Size)
    ensures
        belongs(focus_name(url, size), url),
{
    reveal_strlit("#");
    assert(focus_name(url, size).take(url.len() as int) == url);
}

/// The most recently used of the previews that are there and whose key belongs
/// to `url`.
pub open spec fn newest_ready<F>(
    entries: Seq<(Seq<char>, PreviewEntry<F>)>,
    url: Seq<char>,
) -> Option<CachedPreview<F>>
    decreases entries.len(),
{
    if entries.len() == 0 {
        None
    } else if belongs(entries.last().0, url) && entries.last().1 is Ready {
        Some(entries.last().1->Ready_0)
    } else {
        newest_ready(entries.drop_last(), url)
    }
}

/// How many entries are there, on their way, and failed.
pub open spec fn tally<F>(entries: Seq<(Seq<char>, PreviewEntry<F>)>) -> (int, int, int)
    decreases entries.len(),
{
    if entries.len() == 0 {
        (0, 0, 0)
    } else {
        let before = tally(entries.drop_last());
        match entries.last().1 {
            PreviewEntry::Ready(_) => (before.0 + 1, before.1, before.2),
            PreviewEntry::Requested => (before.0, before.1 + 1, before.2),
            PreviewEntry::Failed(_) => (before.0, before.1, before.2 + 1),
        }
    }
}

/// How a load ended.
pub enum Loaded<F> {
    /// With a decoded preview.
    Decoded(CachedPreview<F>),
    /// With something that is no GIF.
    NotGif,
    /// With an error.
    Failed(String),
}

impl<F> Loaded<F> {
    /// How a load ends whose bytes were decoded with this result.
    pub fn from_decoding(result: Result<Option<CachedPreview<F>>, String>) -> (r: Loaded<F>)
        ensures
            r == (match result {
                Ok(Some(cached)) => Loaded::Decoded(cached),
                Ok(None) => Loaded::NotGif,
                Err(why) => Loaded::Failed(why),
            }),
    {
        match result {
            Ok(Some(cached)) => Loaded::Decoded(cached),
            Ok(None) => Loaded::NotGif,
            Err(why) => Loaded::Failed(why),
        }
    }
}

/// Whether the end of a load makes `after` out of `before`: a decoded preview is
/// stored, what is no GIF counts as failed, and an error is stored as it is.
pub open spec fn settles<F>(
    before: CacheView<F>,
    key: Seq<char>,
    outcome: Loaded<F>,
    after: CacheView<F>,
) -> bool {
    match outcome {
        Loaded::Decoded(cached) => after == before.finished(key, PreviewEntry::Ready(cached)),
        Loaded::NotGif => exists|why: String| #![trigger why@]
            why@ == "not a gif"@ && after == before.finished(key, PreviewEntry::Failed(why)),
        Loaded::Failed(why) => after == before.finished(key, PreviewEntry::Failed(why)),
    }
}

/// `Arc::clone` of the standard library: another handle to the same value.
#[verifier::external_body]
fn share(bytes: &Arc<Vec<u8>>) -> (r: Arc<Vec<u8>>)
    ensures
        r == *bytes,
{
    Arc::clone(bytes)
}

/// What stands in the place of a preview that is not there: a mark, if there is
/// something to wait for.
pub fn placeholder(url: &str) -> (r: &'static str)
    ensures
        r@ == (if url@.len() == 0 {
            ""@
        } else {
            "…"@
        }),
{
    if url.is_empty() {
        ""
    } else {
        "…"
    }
}

/// A bounded cache of previews. Previews that are on their way are never
/// dropped: a load cannot be cancelled, and its result would come back and push
/// out a preview that is on screen.
#[verifier::reject_recursive_types(F)]
pub struct PreviewCache<F> {
    map: StringHashMap<PreviewEntry<F>>,
    lru: VecDeque<String>,
    loading: StringHashSet,
    cap: usize,
}

impl<F> View for PreviewCache<F> {
    type V = CacheView<F>;

    closed spec fn view(&self) -> CacheView<F> {
        CacheView {
            entries: Seq::new(self.lru@.len(), |i: int| (self.lru@[i]@, self.map@[self.lru@[i]@])),
            cap: self.cap as int,
        }
    }
}

impl<F> PreviewCache<F> {
    closed spec fn consistent(&self) -> bool {
        &&& self.cap >= 1
        &&& forall|i: int, j: int|
            0 <= i < j < self.lru@.len() ==> (#[trigger] self.lru@[i])@ != (
            #[trigger] self.lru@[j])@
        &&& forall|i: int|
            0 <= i < self.lru@.len() ==> self.map@.contains_key((#[trigger] self.lru@[i])@)
        &&& forall|k: Seq<char>| #[trigger]
            self.map@.contains_key(k) ==> self.lru_holds(k)
        &&& forall|k: Seq<char>| #[trigger]
            self.loading@.contains(k) <==> self.map@.contains_key(k) && self.map@[k] is Requested
    }

    closed spec fn lru_holds(&self, k: Seq<char>) -> bool {
        exists|i: int| 0 <= i < self.lru@.len() && (#[trigger] self.lru@[i])@ == k
    }

    /// The order of use, the previews and the set of those on their way agree.
    pub closed spec fn wf(&self) -> bool {
        self.consistent() && self@.wf()
    }

    /// What is well formed has no key twice and room for a preview.
    pub proof fn lemma_wf(&self)
        requires
            self.wf(),
        ensures
            self@.wf(),
    {
    }

    proof fn lemma_view_wf(&self)
        requires
            self.consistent(),
            bounded(self@.entries, self@.cap),
        ensures
            self.wf(),
    {
        let e = self@.entries;
        assert forall|i: int, j: int| 0 <= i < j < e.len() implies (#[trigger] e[i]).0 != (
        #[trigger] e[j]).0 by {
            assert(e[i].0 == self.lru@[i]@);
            assert(e[j].0 == self.lru@[j]@);
        }
    }

    proof fn lemma_lookup(&self, key: Seq<char>)
        requires
            self.consistent(),
        ensures
            self.map@.contains_key(key) <==> self@.known(key) is Some,
            self.map@.contains_key(key) ==> self@.known(key) == Some(self.map@[key]),
    {
        let e = self@.entries;
        lemma_key_place(e, key);
        let p = key_place(e, key);
        if p < e.len() {
            assert(e[p].0 == self.lru@[p]@);
        } else if self.map@.contains_key(key) {
            assert(self.lru_holds(key));
            let i = choose|i: int| 0 <= i < self.lru@.len() && (#[trigger] self.lru@[i])@ == key;
            assert(e[i].0 == key);
        }
    }

    /// An empty cache with room for `cap` previews, and for one at least.
    pub fn new(cap: usize) -> (r: PreviewCache<F>)
        ensures
            r.wf(),
            r@ == (CacheView::<F> {
                entries: Seq::empty(),
                cap: if cap < 1 {
                    1
                } else {
                    cap as int
                },
            }),
    {
        let r = PreviewCache {
            map: StringHashMap::new(),
            lru: VecDeque::new(),
            loading: StringHashSet::new(),
            cap: if cap < 1 {
                1
            } else {
                cap
            },
        };
        assert(r@.entries == Seq::<(Seq<char>, PreviewEntry<F>)>::empty());
        r
    }

    fn put(&mut self, url: &str, entry: PreviewEntry<F>)
        requires
            old(self).consistent(),
        ensures
            final(self).consistent(),
            final(self)@.entries == touched(old(self)@.entries, url@, entry),
            final(self)@.cap == old(self)@.cap,
    {
        let ghost before = self@.entries;
        let ghost lru0 = self.lru@;
        let ghost map0 = self.map@;
        let on_its_way: bool = match &entry {
            PreviewEntry::Requested => true,
            _ => false,
        };
        if on_its_way {
            self.loading.insert(url.to_owned());
        } else {
            self.loading.remove(url);
        }
        self.map.insert(url.to_owned(), entry);
        let mut pos: usize = 0;
        while pos < self.lru.len() && !same(self.lru[pos].as_str(), url)
            invariant
                pos <= self.lru@.len(),
                self.lru@ == lru0,
                forall|j: int| 0 <= j < pos ==> (#[trigger] lru0[j])@ != url@,
                self.map@ == map0.insert(url@, entry),
                self.cap == old(self).cap,
                forall|k: Seq<char>| #[trigger]
                    self.loading@.contains(k) <==> self.map@.contains_key(k)
                        && self.map@[k] is Requested,
            decreases lru0.len() - pos,
        {
            pos += 1;
        }
        proof {
            assert forall|j: int| 0 <= j < pos implies (#[trigger] before[j]).0 != url@ by {
                assert(before[j].0 == lru0[j]@);
            }
            if pos < lru0.len() {
                assert(before[pos as int].0 == lru0[pos as int]@);
            }
            lemma_key_place_is(before, url@, pos as int);
        }
        if pos < self.lru.len() {
            self.lru.remove(pos);
        }
        self.lru.push_back(url.to_owned());
        proof {
            let lru1 = self.lru@;
            let n = lru1.len() - 1;
            let shift = |i: int| if i < pos { i } else { i + 1 };
            assert forall|i: int| 0 <= i < n implies (#[trigger] lru1[i])@ == lru0[shift(i)]@
                && lru0[shift(i)]@ != url@ && 0 <= shift(i) < lru0.len() by {
                if pos < lru0.len() && i >= pos {
                    assert(lru0[pos as int]@ == url@);
                }
            }
            assert(lru1[n]@ == url@);
            assert forall|i: int, j: int| 0 <= i < j < lru1.len() implies (#[trigger] lru1[i])@ != (
            #[trigger] lru1[j])@ by {
                if j < n {
                    assert(lru1[i]@ == lru0[shift(i)]@ && lru1[j]@ == lru0[shift(j)]@);
                }
            }
            assert forall|i: int| 0 <= i < lru1.len() implies self.map@.contains_key(
                (#[trigger] lru1[i])@,
            ) by {
                if i < n {
                    assert(lru1[i]@ == lru0[shift(i)]@);
                }
            }
            assert forall|k: Seq<char>| #[trigger]
                self.map@.contains_key(k) implies self.lru_holds(k) by {
                if k == url@ {
                    assert(lru1[n]@ == k);
                } else {
                    assert(map0.contains_key(k));
                    assert(old(self).lru_holds(k));
                    let i = choose|i: int| 0 <= i < lru0.len() && (#[trigger] lru0[i])@ == k;
                    let at = if i < pos { i } else { i - 1 };
                    assert(lru1[at]@ == lru0[shift(at)]@);
                    assert(lru1[at]@ == k);
                }
            }
            assert(self.consistent());
            let after = self@.entries;
            let want = touched(before, url@, entry);
            assert(after.len() == want.len());
            assert forall|i: int| 0 <= i < after.len() implies after[i] == want[i] by {
                if i < n {
                    assert(lru1[i]@ == lru0[shift(i)]@);
                    assert(want[i] == before[shift(i)]);
                } else {
                    assert(want[i] == (url@, entry));
                }
            }
            assert(after == want);
        }
    }

    /// Drops least recently used previews while there are more than `cap`.
    fn evict(&mut self)
        requires
            old(self).consistent(),
        ensures
            final(self).consistent(),
            final(self)@.entries == evicted(old(self)@.entries, old(self)@.cap),
            final(self)@.cap == old(self)@.cap,
            bounded(final(self)@.entries, final(self)@.cap),
    {
        proof {
            lemma_evicted_bounded(self@.entries, self@.cap);
        }
        let mut done: bool = false;
        while !done && self.lru.len() > self.cap
            invariant
                self.consistent(),
                self.cap == old(self).cap,
                evicted(self@.entries, self.cap as int) == evicted(
                    old(self)@.entries,
                    self.cap as int,
                ),
                done ==> self@.entries == evicted(old(self)@.entries, self.cap as int),
            decreases self.lru@.len() + if done {
                0int
            } else {
                1int
            },
        {
            let ghost before = self@.entries;
            let ghost lru0 = self.lru@;
            let mut idx: usize = 0;
            while idx < self.lru.len() && self.loading.contains(self.lru[idx].as_str())
                invariant
                    idx <= self.lru@.len(),
                    self.lru@ == lru0,
                    before == self@.entries,
                    self.consistent(),
                    self.cap == old(self).cap,
                    evicted(before, self.cap as int) == evicted(
                        old(self)@.entries,
                        self.cap as int,
                    ),
                    forall|j: int| 0 <= j < idx ==> (#[trigger] before[j]).1 is Requested,
                decreases lru0.len() - idx,
            {
                assert(before[idx as int].1 is Requested);
                idx += 1;
            }
            proof {
                if idx < lru0.len() {
                    assert(!(before[idx as int].1 is Requested));
                }
                lemma_first_settled_is(before, idx as int);
            }
            if idx == self.lru.len() {
                done = true;
            } else {
                match self.lru.remove(idx) {
                    Some(oldest) => {
                        let ghost map0 = self.map@;
                        self.map.remove(oldest.as_str());
                        proof {
                            let lru1 = self.lru@;
                            let gone = lru0[idx as int]@;
                            let shift = |i: int| if i < idx { i } else { i + 1 };
                            assert forall|i: int| 0 <= i < lru1.len() implies (
                            #[trigger] lru1[i])@ == lru0[shift(i)]@ && lru0[shift(i)]@ != gone by {
                            }
                            assert forall|i: int, j: int| 0 <= i < j < lru1.len() implies (
                            #[trigger] lru1[i])@ != (#[trigger] lru1[j])@ by {
                                assert(lru1[i]@ == lru0[shift(i)]@ && lru1[j]@ == lru0[shift(j)]@);
                            }
                            assert forall|i: int| 0 <= i < lru1.len() implies self.map@.contains_key(
                                (#[trigger] lru1[i])@,
                            ) by {
                                assert(lru1[i]@ == lru0[shift(i)]@);
                                assert(map0.contains_key(lru0[shift(i)]@));
                            }
                            assert forall|k: Seq<char>| #[trigger]
                                self.map@.contains_key(k) implies self.lru_holds(k) by {
                                assert(map0.contains_key(k) && k != gone);
                                let i = choose|i: int|
                                    0 <= i < lru0.len() && (#[trigger] lru0[i])@ == k;
                                let at = if i < idx { i } else { i - 1 };
                                assert(lru1[at]@ == lru0[shift(at)]@);
                                assert(lru1[at]@ == k);
                            }
                            assert(!self.loading@.contains(gone));
                            assert(self.consistent());
                            assert(self@.entries == before.remove(idx as int)) by {
                                let after = self@.entries;
                                let want = before.remove(idx as int);
                                assert(after.len() == want.len());
                                assert forall|i: int| 0 <= i < after.len() implies after[i]
                                    == want[i] by {
                                    assert(lru1[i]@ == lru0[shift(i)]@);
                                    assert(want[i] == before[shift(i)]);
                                }
                            }
                        }
                    },
                    None => {
                        done = true;
                    },
                }
            }
        }
    }

    /// Asks for a preview. Whether a load is to be started: not without a key,
    /// and not for a preview that was asked for before, whatever came of it.
    pub fn try_request(&mut self, url: &str) -> (r: bool)
        requires
            old(self).wf(),
        ensures
            final(self).wf(),
            r == old(self)@.wants(url@),
            final(self)@ == old(self)@.requested(url@),
    {
        proof {
            self.lemma_lookup(url@);
        }
        if url.is_empty() || self.map.contains_key(url) || self.loading.contains(url) {
            return false;
        }
        self.put(url, PreviewEntry::Requested);
        self.evict();
        proof {
            self.lemma_view_wf();
        }
        true
    }

    fn finish(&mut self, url: &str, entry: PreviewEntry<F>)
        requires
            old(self).wf(),
        ensures
            final(self).wf(),
            final(self)@ == old(self)@.finished(url@, entry),
    {
        proof {
            self.lemma_lookup(url@);
        }
        if !self.loading.contains(url) {
            return;
        }
        self.put(url, entry);
        self.evict();
        proof {
            self.lemma_view_wf();
        }
    }

    /// Stores a completed load. A result for a preview that is no longer
    /// awaited (dropped by `clear`, or a stale duplicate) is dropped instead of
    /// stored: a late one would overshoot the cap and push out a preview that
    /// is on screen.
    pub fn insert_ready(&mut self, url: &str, cached: CachedPreview<F>)
        requires
            old(self).wf(),
        ensures
            final(self).wf(),
            final(self)@ == old(self)@.finished(url@, PreviewEntry::Ready(cached)),
    {
        self.finish(url, PreviewEntry::Ready(cached));
    }

    /// Stores that a load failed, under the same conditions.
    pub fn insert_failed(&mut self, url: &str, why: String)
        requires
            old(self).wf(),
        ensures
            final(self).wf(),
            final(self)@ == old(self)@.finished(url@, PreviewEntry::Failed(why)),
    {
        self.finish(url, PreviewEntry::Failed(why));
    }

    /// Resizes the cap to cover the currently visible window. Growing keeps all
    /// previews; shrinking drops the least recently used down to the new size.
    pub fn set_cap(&mut self, cap: usize)
        requires
            old(self).wf(),
        ensures
            final(self).wf(),
            final(self)@ == old(self)@.resized(cap as int),
    {
        let ghost before = self@.entries;
        self.cap = if cap < 1 {
            1
        } else if cap > MAX_CACHE_CAP {
            MAX_CACHE_CAP
        } else {
            cap
        };
        assert(self@.entries == before);
        self.evict();
        proof {
            self.lemma_view_wf();
        }
    }

    /// Drops all previews and forgets which are on their way (used when the
    /// whole item list is replaced, as on a page change).
    pub fn clear(&mut self)
        requires
            old(self).wf(),
        ensures
            final(self).wf(),
            final(self)@ == old(self)@.cleared(),
    {
        self.map.clear();
        self.lru.clear();
        self.loading.clear();
        proof {
            assert(self.consistent());
            assert(self@.entries == old(self)@.cleared().entries);
            self.lemma_view_wf();
        }
    }

    /// What is known of a preview.
    pub fn get(&self, url: &str) -> (r: Option<&PreviewEntry<F>>)
        requires
            self.wf(),
        ensures
            match r {
                Some(e) => self@.known(url@) == Some(*e),
                None => self@.known(url@) is None,
            },
    {
        proof {
            self.lemma_lookup(url@);
        }
        self.map.get(url)
    }

    /// The newest preview that is there for `url` at any decode size. Keeps the
    /// previous frames on screen while a decode for a new size runs.
    pub fn newest_ready_for(&self, url: &str) -> (r: Option<&CachedPreview<F>>)
        requires
            self.wf(),
        ensures
            match r {
                Some(c) => newest_ready(self@.entries, url@) == Some(*c),
                None => newest_ready(self@.entries, url@) is None,
            },
    {
        let ghost entries = self@.entries;
        let mut i: usize = self.lru.len();
        assert(entries.take(i as int) == entries);
        while i > 0
            invariant
                i <= self.lru@.len(),
                self.consistent(),
                entries == self@.entries,
                newest_ready(entries.take(i as int), url@) == newest_ready(entries, url@),
            decreases i,
        {
            let ghost shorter = entries.take(i as int);
            assert(shorter.drop_last() == entries.take(i - 1));
            assert(shorter.last() == entries[i - 1]);
            i -= 1;
            let key: &str = self.lru[i].as_str();
            if key_for_url(key, url) {
                if let Some(PreviewEntry::Ready(c)) = self.map.get(key) {
                    return Some(c);
                }
            }
        }
        assert(entries.take(0).len() == 0);
        None
    }

    /// Stores how a load ended.
    pub fn settle(&mut self, url: &str, outcome: Loaded<F>)
        requires
            old(self).wf(),
        ensures
            final(self).wf(),
            settles(old(self)@, url@, outcome, final(self)@),
    {
        match outcome {
            Loaded::Decoded(cached) => self.insert_ready(url, cached),
            Loaded::NotGif => {
                let why: String = "not a gif".to_owned();
                let ghost told = why;
                self.insert_failed(url, why);
                assert(told@ == "not a gif"@);
            },
            Loaded::Failed(why) => self.insert_failed(url, why),
        }
    }

    /// The preview to draw for `url`, if it is there.
    pub fn ready(&self, url: &str) -> (r: Option<&CachedPreview<F>>)
        requires
            self.wf(),
        ensures
            match r {
                Some(c) => self@.known(url@) == Some(PreviewEntry::Ready(*c)),
                None => !(self@.known(url@) is Some && self@.known(url@)->0 is Ready),
            },
    {
        match self.get(url) {
            Some(PreviewEntry::Ready(c)) => Some(c),
            _ => None,
        }
    }

    /// The bytes of a preview that is there, for another decode of them.
    pub fn cached_bytes(&self, url: &str) -> (r: Option<Arc<Vec<u8>>>)
        requires
            self.wf(),
        ensures
            match r {
                Some(b) => {
                    &&& self@.known(url@) is Some
                    &&& self@.known(url@)->0 is Ready
                    &&& b == self@.known(url@)->0->Ready_0.bytes
                    &&& b@.len() > 0
                },
                None => {
                    ||| !(self@.known(url@) is Some && self@.known(url@)->0 is Ready)
                    ||| self@.known(url@)->0->Ready_0.bytes@.len() == 0
                },
            },
    {
        match self.ready(url) {
            Some(c) => if c.bytes.len() > 0 {
                Some(share(&c.bytes))
            } else {
                None
            },
            None => None,
        }
    }

    /// The enlarged preview to draw for `url` when the overlay has the size
    /// `want`: the one decoded for that size or else, as right after a terminal
    /// resize, the newest decoded for any size, so that the overlay never goes
    /// blank meanwhile.
    pub fn focus_ready(&self, url: &str, want: Size) -> (r: Option<&CachedPreview<F>>)
        requires
            self.wf(),
        ensures
            ({
                let exact = self@.known(focus_name(url@, want));
                match r {
                    Some(c) => if exact is Some && exact->0 is Ready {
                        exact->0->Ready_0 == *c
                    } else {
                        newest_ready(self@.entries, url@) == Some(*c)
                    },
                    None => !(exact is Some && exact->0 is Ready) && newest_ready(
                        self@.entries,
                        url@,
                    ) is None,
                }
            }),
    {
        let key: String = focus_key(url, want);
        match self.ready(key.as_str()) {
            Some(c) => Some(c),
            None => self.newest_ready_for(url),
        }
    }

    /// How many previews are known of.
    pub fn len(&self) -> (r: usize)
        ensures
            r == self@.entries.len(),
    {
        self.lru.len()
    }
}

/// How many previews are there, how many are on their way, and how many
/// could not be had.
pub fn preview_stats<F>(cache: &PreviewCache<F>) -> (r: (usize, usize, usize))
    requires
        cache.wf(),
    ensures
        r.0 == tally(cache@.entries).0,
        r.1 == tally(cache@.entries).1,
        r.2 == tally(cache@.entries).2,
{
    let ghost entries = cache@.entries;
    let mut loaded: usize = 0;
    let mut requested: usize = 0;
    let mut failed: usize = 0;
    let mut i: usize = 0;
    assert(entries.take(0).len() == 0);
    while i < cache.lru.len()
        invariant
            i <= cache.lru@.len(),
            cache.consistent(),
            entries == cache@.entries,
            loaded == tally(entries.take(i as int)).0,
            requested == tally(entries.take(i as int)).1,
            failed == tally(entries.take(i as int)).2,
            loaded + requested + failed == i,
        decreases cache.lru@.len() - i,
    {
        let ghost longer = entries.take(i + 1);
        assert(longer.drop_last() == entries.take(i as int));
        assert(longer.last() == entries[i as int]);
        match cache.map.get(cache.lru[i].as_str()) {
            Some(PreviewEntry::Ready(_)) => {
                loaded += 1;
            },
            Some(PreviewEntry::Requested) => {
                requested += 1;
            },
            Some(PreviewEntry::Failed(_)) => {
                failed += 1;
            },
            None => {
                assert(false);
            },
        }
        i += 1;
    }
    assert(entries.take(i as int) == entries);
    (loaded, requested, failed)
}

/// Asks for a preview. Whether its load is to be started.
pub fn ensure_requested<F>(cache: &mut PreviewCache<F>, url: &str) -> (r: bool)
    requires
        old(cache).wf(),
    ensures
        final(cache).wf(),
        r == old(cache)@.wants(url@),
        final(cache)@ == old(cache)@.requested(url@),
{
    cache.try_request(url)
}

/// Asks for an enlarged decode of `url` at `size`. Whether it is to be
/// started: once for each address and size, so that a different size (as
/// after a terminal resize) starts a fresh decode while the old frames
/// keep rendering.
pub fn ensure_focus_requested<F>(
    focus_cache: &mut PreviewCache<F>,
    url: &str,
    size: Size,
) -> (r: bool)
    requires
        old(focus_cache).wf(),
    ensures
        final(focus_cache).wf(),
        r == old(focus_cache)@.wants(focus_name(url@, size)),
        final(focus_cache)@ == old(focus_cache)@.requested(focus_name(url@, size)),
{
    let key: String = focus_key(url, size);
    focus_cache.try_request(key.as_str())
}

} // verus!
