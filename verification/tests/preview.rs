use std::sync::Arc;
use std::time::Duration;

use gifdeck::geometry::Size;
use gifdeck::preview::{
    ensure_focus_requested, ensure_requested, focus_key, frame_index, key_for_url, placeholder,
    preview_stats, CachedPreview, Loaded, PreviewCache, PreviewEntry,
};
use image::{DynamicImage, ImageBuffer, Rgba};
use ratatui_image::picker::Picker;
use ratatui_image::protocol::Protocol;
use ratatui_image::Resize;

fn cache(cap: usize) -> PreviewCache<Protocol> {
    PreviewCache::new(cap)
}

fn index(delays: &[Duration], elapsed: Duration) -> usize {
    let millis: Vec<u64> = delays.iter().map(|d| d.as_millis() as u64).collect();
    frame_index(&millis, elapsed.as_millis())
}

#[test]
fn frame_index_wraps_and_selects() {
    let delays = [Duration::from_millis(100), Duration::from_millis(100)];
    assert_eq!(index(&delays, Duration::from_millis(0)), 0);
    assert_eq!(index(&delays, Duration::from_millis(99)), 0);
    assert_eq!(index(&delays, Duration::from_millis(100)), 1);
    assert_eq!(index(&delays, Duration::from_millis(199)), 1);
    assert_eq!(index(&delays, Duration::from_millis(200)), 0);
    assert_eq!(index(&delays, Duration::from_millis(299)), 0);
}

#[test]
fn frame_index_edge_cases() {
    assert_eq!(index(&[], Duration::from_secs(5)), 0);
    assert_eq!(
        index(&[Duration::from_millis(200)], Duration::from_secs(3)),
        0
    );
    let zero = [Duration::ZERO, Duration::ZERO];
    assert_eq!(index(&zero, Duration::from_millis(50)), 0);
}

#[test]
fn frame_index_skips_frames_without_time() {
    assert_eq!(frame_index(&[0, 30, 0, 70], 0), 1);
    assert_eq!(frame_index(&[0, 30, 0, 70], 30), 3);
    assert_eq!(frame_index(&[0, 30, 0, 70], 129), 1);
    assert_eq!(frame_index(&[u64::MAX, u64::MAX], u64::MAX as u128), 1);
    assert_eq!(frame_index(&[u64::MAX, u64::MAX], u128::MAX), 1);
}

#[test]
fn frame_index_repeats_after_the_whole_length() {
    let delays = [40, 100, 60];
    for t in 0..400 {
        assert_eq!(frame_index(&delays, t), frame_index(&delays, t + 200));
        assert!(frame_index(&delays, t) < 3);
    }
}

#[test]
fn cache_insert_and_evict_at_cap() {
    let mut c = cache(3);
    for k in ["a", "b", "c"] {
        c.try_request(k);
    }
    // Complete the loads so entries become evictable.
    for k in ["a", "b", "c"] {
        c.insert_ready(k, empty_cached());
    }
    assert!(c.try_request("d"));
    assert_eq!(c.len(), 3);
    assert!(c.get("a").is_none());
    assert!(c.get("b").is_some());
    assert!(c.get("d").is_some());
}

#[test]
fn evict_never_drops_in_flight_entries() {
    let mut c = cache(2);
    c.try_request("a");
    c.try_request("b");
    c.insert_ready("a", empty_cached());
    // 'b' is still in flight: over cap it must not be evicted.
    c.try_request("c");
    assert!(c.get("b").is_some(), "in-flight entry kept");
    assert!(c.get("a").is_none(), "lru ready entry evicted instead");
    assert!(c.get("c").is_some());
}

#[test]
fn late_results_after_clear_are_dropped() {
    let mut c = cache(4);
    c.try_request("a");
    c.clear();
    c.insert_ready(
        "a",
        CachedPreview {
            frames: Vec::new(),
            delays: Vec::new(),
            loaded_at: 0,
            bytes: Arc::new(Vec::new()),
        },
    );
    c.insert_failed("a", "boom".to_string());
    assert!(c.get("a").is_none(), "stale result must not re-insert");
}

fn empty_cached() -> CachedPreview<Protocol> {
    CachedPreview {
        frames: Vec::new(),
        delays: Vec::new(),
        loaded_at: 0,
        bytes: Arc::new(Vec::new()),
    }
}

#[test]
fn cache_ready_bumps_lru_position() {
    let mut c = cache(2);
    c.try_request("a");
    c.try_request("b");
    let picker = Picker::halfblocks();
    let img: DynamicImage = ImageBuffer::from_pixel(10, 10, Rgba([255u8, 0, 0, 255])).into();
    let proto = picker
        .new_protocol(img, ratatui::layout::Size::new(12, 4), Resize::Fit(None))
        .unwrap();
    c.insert_ready(
        "a",
        CachedPreview {
            frames: vec![proto],
            delays: vec![100],
            loaded_at: 0,
            bytes: Arc::new(Vec::new()),
        },
    );
    c.insert_ready("b", empty_cached());
    assert!(c.try_request("c"));
    assert_eq!(c.len(), 2);
    assert!(c.get("a").is_none(), "least-recently-used 'a' evicted");
    assert!(c.get("b").is_some());
    assert!(c.get("c").is_some());
}

#[test]
fn set_cap_grows_and_keeps_entries() {
    let mut c = cache(2);
    c.try_request("a");
    c.try_request("b");
    c.set_cap(5);
    c.try_request("c");
    c.try_request("d");
    c.try_request("e");
    assert_eq!(c.len(), 5);
    for k in ["a", "b", "c", "d", "e"] {
        assert!(c.get(k).is_some(), "{k} should be kept after grow");
    }
}

#[test]
fn set_cap_shrinks_evicting_lru() {
    let mut c = cache(10);
    for k in ["a", "b", "c", "d", "e"] {
        c.try_request(k);
        c.insert_ready(k, empty_cached());
    }
    c.set_cap(3);
    assert_eq!(c.len(), 3);
    // 'a','b' are least recently used and must go.
    assert!(c.get("a").is_none());
    assert!(c.get("b").is_none());
    for k in ["c", "d", "e"] {
        assert!(c.get(k).is_some());
    }
}

#[test]
fn set_cap_clamps_to_ceiling() {
    let mut c = cache(2);
    c.set_cap(usize::MAX);
    c.try_request("a");
    c.try_request("b");
    c.try_request("c");
    assert_eq!(c.len(), 3);
}

#[test]
fn ceiling_bounds_the_cache() {
    let mut c: PreviewCache<()> = PreviewCache::new(1);
    c.set_cap(usize::MAX);
    for i in 0..4100 {
        let k = i.to_string();
        c.try_request(&k);
        c.insert_failed(&k, String::new());
    }
    assert_eq!(c.len(), 4096);
    c.set_cap(0);
    assert_eq!(c.len(), 1, "there is always room for one");
}

#[test]
fn request_dedupes_in_flight_and_failed() {
    let mut c = cache(4);
    assert!(c.try_request("a"));
    assert!(!c.try_request("a"));
    c.insert_failed("a", "boom".to_string());
    assert!(!c.try_request("a"), "failed entries are not refetched");
    c.try_request("b");
    c.insert_ready(
        "b",
        CachedPreview {
            frames: Vec::new(),
            delays: Vec::new(),
            loaded_at: 0,
            bytes: Arc::new(Vec::new()),
        },
    );
    assert!(!c.try_request("b"), "ready entries are not refetched");
}

#[test]
fn nothing_is_requested_without_a_key() {
    let mut c = cache(4);
    assert!(!c.try_request(""));
    assert!(!ensure_requested(&mut c, ""));
    assert_eq!(c.len(), 0);
    assert!(ensure_requested(&mut c, "x"));
    assert!(matches!(c.get("x"), Some(PreviewEntry::Requested)));
}

#[test]
fn second_result_is_dropped() {
    let mut c = cache(4);
    c.try_request("a");
    c.insert_failed("a", "first".into());
    c.insert_failed("a", "second".into());
    assert!(matches!(c.get("a"), Some(PreviewEntry::Failed(why)) if why == "first"));
}

#[test]
fn loads_settle_as_what_they_are() {
    let mut c = cache(8);
    for k in ["a", "b", "c", "d"] {
        c.try_request(k);
    }
    c.settle("a", Loaded::Decoded(one_frame_cached()));
    c.settle("b", Loaded::NotGif);
    c.settle("c", Loaded::Failed("timeout".into()));
    assert!(c.ready("a").is_some());
    assert!(c.ready("b").is_none());
    assert!(matches!(c.get("b"), Some(PreviewEntry::Failed(why)) if why == "not a gif"));
    assert!(matches!(c.get("c"), Some(PreviewEntry::Failed(why)) if why == "timeout"));
    assert_eq!(preview_stats(&c), (1, 1, 2));
}

#[test]
fn focus_key_separates_sizes_without_url_collisions() {
    assert_eq!(focus_key("u", Size::new(10, 5)), "u#10x5");
    assert_ne!(
        focus_key("u", Size::new(10, 5)),
        focus_key("u", Size::new(11, 5))
    );
    // Different urls at sizes that could tile a suffix never collide.
    assert_ne!(
        focus_key("u#1x1", Size::new(2, 2)),
        focus_key("u", Size::new(1, 1))
    );
    assert!(key_for_url("u#10x5", "u"));
    assert!(!key_for_url("u#10x5", "v"));
    assert!(!key_for_url("u", "u"));
}

fn one_frame_cached() -> CachedPreview<Protocol> {
    let picker = Picker::halfblocks();
    let img: DynamicImage = ImageBuffer::from_pixel(10, 10, Rgba([255u8, 0, 0, 255])).into();
    let proto = picker
        .new_protocol(img, ratatui::layout::Size::new(12, 4), Resize::Fit(None))
        .unwrap();
    CachedPreview {
        frames: vec![proto],
        delays: vec![100],
        loaded_at: 0,
        bytes: Arc::new(Vec::new()),
    }
}

#[test]
fn resize_starts_new_decode_while_old_frames_render() {
    let mut c = cache(4);
    let small = focus_key("u", Size::new(10, 5));
    let large = focus_key("u", Size::new(20, 10));

    // Initial decode at the small size.
    assert!(c.try_request(&small));
    c.insert_ready(&small, empty_cached());
    assert!(matches!(c.get(&small), Some(PreviewEntry::Ready(_))));

    // Terminal resized: the large key is a brand-new request (not
    // deduped against the small entry)…
    assert!(c.try_request(&large));
    // …and while it is in flight the newest ready frames for the url
    // (the small decode, 0 frames) still render.
    assert_eq!(c.newest_ready_for("u").unwrap().frame_count(), 0);

    // Once the large decode lands it becomes the newest.
    c.insert_ready(&large, one_frame_cached());
    assert_eq!(c.newest_ready_for("u").unwrap().frame_count(), 1);
    assert!(matches!(c.get(&large), Some(PreviewEntry::Ready(_))));
    // The old-size entry survives until LRU eviction.
    assert!(matches!(c.get(&small), Some(PreviewEntry::Ready(_))));
}

#[test]
fn newest_ready_for_ignores_other_urls() {
    let mut c = cache(4);
    c.try_request("other#1x1");
    c.insert_ready("other#1x1", empty_cached());
    c.try_request(&focus_key("u", Size::new(2, 2)));
    c.insert_ready(&focus_key("u", Size::new(2, 2)), empty_cached());
    assert!(c.newest_ready_for("u").is_some());
    assert!(c.newest_ready_for("v").is_none());
}

#[test]
fn focus_prefers_the_exact_size() {
    let mut c = cache(8);
    let (small, large) = (Size::new(10, 5), Size::new(20, 10));
    assert!(ensure_focus_requested(&mut c, "u", small));
    assert!(!ensure_focus_requested(&mut c, "u", small));
    assert!(c.focus_ready("u", small).is_none());
    c.insert_ready(&focus_key("u", small), one_frame_cached());
    assert!(ensure_focus_requested(&mut c, "u", large));
    assert_eq!(c.focus_ready("u", large).unwrap().frame_count(), 1);
    c.insert_ready(&focus_key("u", large), empty_cached());
    assert_eq!(c.focus_ready("u", large).unwrap().frame_count(), 0);
    assert_eq!(c.focus_ready("u", small).unwrap().frame_count(), 1);
}

#[test]
fn cached_bytes_are_shared_when_there_are_any() {
    let mut c: PreviewCache<u8> = PreviewCache::new(4);
    let preview = |bytes: Vec<u8>| CachedPreview {
        frames: vec![1u8],
        delays: vec![40],
        loaded_at: 0,
        bytes: Arc::new(bytes),
    };
    assert!(c.cached_bytes("a").is_none());
    c.try_request("a");
    assert!(c.cached_bytes("a").is_none());
    c.insert_ready("a", preview(vec![7, 8]));
    assert_eq!(c.cached_bytes("a").unwrap().as_slice(), &[7, 8]);
    c.try_request("b");
    c.insert_ready("b", preview(Vec::new()));
    assert!(c.cached_bytes("b").is_none());
}

#[test]
fn frames_follow_the_clock() {
    let ms = 1_000_000u128;
    let c = CachedPreview {
        frames: vec!['x', 'y'],
        delays: vec![100, 50],
        loaded_at: 1000 * ms,
        bytes: Arc::new(vec![1]),
    };
    assert_eq!(*c.frame(0), 'x', "no time has passed before it was loaded");
    assert_eq!(*c.frame(1000 * ms), 'x');
    assert_eq!(*c.frame(1100 * ms - 1), 'x');
    assert_eq!(*c.frame(1100 * ms), 'y');
    assert_eq!(*c.frame(1150 * ms), 'x');
    assert_eq!(c.raw_bytes().as_slice(), &[1]);
    let short = CachedPreview {
        frames: vec!['z'],
        delays: vec![10, 10],
        loaded_at: 0,
        bytes: Arc::new(Vec::new()),
    };
    assert_eq!(*short.frame(15 * ms), 'z', "the last frame there is");
}

#[test]
fn placeholders_mark_what_is_awaited() {
    assert_eq!(placeholder(""), "");
    assert_eq!(placeholder("https://x"), "…");
}

fn filled(cap: usize, keys: &[&str]) -> PreviewCache<Protocol> {
    let mut c = cache(cap);
    for k in keys {
        c.try_request(k);
        c.insert_ready(k, empty_cached());
    }
    c
}

#[test]
fn shown_previews_stay_while_there_are_older_ones_to_drop() {
    // Two of four are older than "c": two loads leave it, a third does not.
    let mut c = filled(4, &["a", "b", "c", "d"]);
    assert!(c.try_request("e"));
    assert!(c.try_request("f"));
    assert!(c.get("a").is_none() && c.get("b").is_none());
    assert!(c.ready("c").is_some() && c.ready("d").is_some());
    assert!(c.try_request("g"));
    assert!(c.get("c").is_none());
    assert!(c.ready("d").is_some());
}

#[test]
fn a_screen_of_headroom_keeps_the_last_screen() {
    let mut c = filled(6, &["a", "b", "c", "d", "e", "f"]);
    for k in ["x", "y", "z"] {
        assert!(c.try_request(k));
    }
    for k in ["d", "e", "f"] {
        assert!(c.ready(k).is_some());
    }
    assert_eq!(preview_stats(&c), (3, 3, 0));
}

#[test]
fn everything_asked_for_is_fetched_even_without_room() {
    let mut c = filled(1, &["a"]);
    for k in ["b", "c", "d"] {
        assert!(c.try_request(k));
    }
    for k in ["b", "c", "d"] {
        assert!(matches!(c.get(k), Some(PreviewEntry::Requested)));
    }
    assert_eq!(c.len(), 3);
}
