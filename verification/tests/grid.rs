use gifdeck::geometry::{centered_area, inside, Rect, Size};
use gifdeck::grid::{
    cell_height, grid_cols, nav_down, nav_left, nav_right, nav_up, nearest_slots, page_label,
    total_pages, visible_rows, MIN_CELL_W, PAGE_SIZE,
};

#[test]
fn grid_columns_from_width() {
    assert_eq!(grid_cols(28), 2);
    assert_eq!(grid_cols(42), 3);
    assert_eq!(grid_cols(80), 5);
    assert_eq!(grid_cols(13), 1);
    assert_eq!(grid_cols(0), 1);
}

#[test]
fn visible_rows_from_height() {
    assert_eq!(visible_rows(14), 2);
    assert_eq!(visible_rows(21), 3);
    assert_eq!(visible_rows(10), 1);
    assert_eq!(visible_rows(0), 1);
}

#[test]
fn nav_left_right_wrap() {
    assert_eq!(nav_left(0, 5), 4);
    assert_eq!(nav_left(3, 5), 2);
    assert_eq!(nav_right(4, 5), 0);
    assert_eq!(nav_right(0, 5), 1);
    assert_eq!(nav_right(0, 1), 0);
    assert_eq!(nav_left(0, 0), 0);
}

#[test]
fn nav_up_down_wrap() {
    let len = 10;
    let cols = 3;
    assert_eq!(nav_down(0, cols, len), 3);
    assert_eq!(nav_down(6, cols, len), 9);
    assert_eq!(nav_down(9, cols, len), 0);
    assert_eq!(nav_down(8, cols, len), 2);
    assert_eq!(nav_up(9, cols, len), 6);
    assert_eq!(nav_up(3, cols, len), 0);
    assert_eq!(nav_up(2, cols, len), 9);
    assert_eq!(nav_up(0, cols, len), 9);
    assert_eq!(nav_up(20, 3, 21), 17);
}

#[test]
fn nav_is_total_at_the_edges() {
    assert_eq!(nav_left(usize::MAX, usize::MAX), usize::MAX - 1);
    assert_eq!(nav_right(usize::MAX, usize::MAX), 1);
    assert_eq!(nav_down(usize::MAX, 3, 10), usize::MAX % 3);
    assert_eq!(nav_up(5, 0, 10), 0);
    assert_eq!(nav_down(5, 0, 10), 0);
    assert_eq!(nav_up(5, 3, 1), 0);
}

#[test]
fn left_undoes_right_everywhere() {
    for len in 1..8 {
        for i in 0..len {
            assert_eq!(nav_left(nav_right(i, len), len), i);
            assert_eq!(nav_right(nav_left(i, len), len), i);
        }
    }
}

#[test]
fn nearest_slots_orders_by_distance() {
    let slots = nearest_slots(0, 4, 2, 8, 5);
    assert_eq!(slots.len(), 8);
    assert_eq!(slots[0], 5);
    assert!(slots[1..4].contains(&1));
    assert!(slots[1..4].contains(&4));
    assert!(slots[1..4].contains(&6));
    let pos7 = slots.iter().position(|&x| x == 7).unwrap();
    let pos3 = slots.iter().position(|&x| x == 3).unwrap();
    let pos0 = slots.iter().position(|&x| x == 0).unwrap();
    assert!(pos0 < pos7 && pos7 < pos3);
}

#[test]
fn nearest_slots_stops_at_partial_last_row() {
    let slots = nearest_slots(0, 4, 2, 6, 4);
    assert_eq!(slots.len(), 6);
    assert!(slots.iter().all(|&i| i < 6));
    assert_eq!(slots[0], 4);
}

#[test]
fn nearest_slots_empty_items_is_safe() {
    assert!(nearest_slots(0, 4, 2, 0, 0).is_empty());
}

#[test]
fn nearest_slots_exact_order() {
    assert_eq!(nearest_slots(0, 3, 2, 6, 4), vec![4, 1, 3, 5, 0, 2]);
    assert_eq!(nearest_slots(3, 3, 1, 100, 4), vec![4, 3, 5]);
    assert_eq!(nearest_slots(0, 0, 0, 5, 0), vec![0]);
    assert_eq!(nearest_slots(5, usize::MAX, 2, 7, 0), vec![5, 6]);
}

#[test]
fn page_label_formats_pages() {
    assert_eq!(page_label(0, Some(50)), "page 1/1");
    assert_eq!(page_label(1, Some(100)), "page 2/2");
    assert_eq!(page_label(2, Some(101)), "page 3/3");
    assert_eq!(page_label(4, Some(24310)), "page 5/487");
    assert_eq!(page_label(2, None), "page 3");
    assert_eq!(page_label(0, Some(0)), "page 1");
}

#[test]
fn total_pages_rounds_up() {
    assert_eq!(total_pages(0), 0);
    assert_eq!(total_pages(1), 1);
    assert_eq!(total_pages(50), 1);
    assert_eq!(total_pages(51), 2);
    assert_eq!(total_pages(usize::MAX), usize::MAX / 50 + 1);
    assert_eq!(PAGE_SIZE, 50);
}

#[test]
fn cell_measures() {
    assert_eq!(cell_height(), 7);
    assert_eq!(MIN_CELL_W, 14);
}

#[test]
fn centered_area_centers_and_clamps() {
    let area = Rect::new(10, 5, 20, 10);
    assert_eq!(
        centered_area(area, Size::new(10, 4)),
        Rect::new(15, 8, 10, 4)
    );
    // Oversized images clamp to the full area.
    assert_eq!(
        centered_area(area, Size::new(50, 50)),
        Rect::new(10, 5, 20, 10)
    );
    // Odd offsets floor the position.
    assert_eq!(centered_area(area, Size::new(5, 5)), Rect::new(17, 7, 5, 5));
}

#[test]
fn rect_is_cut_at_the_last_coordinate() {
    let r = Rect::new(65530, 65535, 10, 3);
    assert_eq!((r.x, r.y, r.width, r.height), (65530, 65535, 5, 0));
    assert!(r.is_empty());
    assert!(!Rect::new(0, 0, 1, 1).is_empty());
}

#[test]
fn inside_takes_off_the_border() {
    let r = inside(Rect::new(3, 4, 14, 7));
    assert_eq!((r.x, r.y, r.width, r.height), (4, 5, 12, 5));
    let thin = inside(Rect::new(3, 4, 1, 0));
    assert_eq!((thin.x, thin.y, thin.width, thin.height), (4, 4, 0, 0));
}

#[test]
fn inside_is_what_a_bordered_block_leaves() {
    let block = ratatui::widgets::Block::default()
        .borders(ratatui::widgets::Borders::ALL)
        .title("x");
    for (x, y, w, h) in [(0, 0, 14, 7), (5, 6, 1, 1), (9, 9, 2, 3), (1, 2, 0, 4)] {
        let theirs = block.inner(ratatui::layout::Rect::new(x, y, w, h));
        let ours = inside(Rect::new(x, y, w, h));
        assert_eq!(
            (ours.x, ours.y, ours.width, ours.height),
            (theirs.x, theirs.y, theirs.width, theirs.height)
        );
    }
}
