use overlay_core::layout::coord_in_limits;
use overlay_core::text_fit::{text_box, text_offset_y, FontSearch, TextBox};

fn search(min_size: i32, max_size: i32, largest_fitting: i32) -> i32 {
    let mut s = FontSearch::new(min_size, max_size);
    while let Some(mid) = s.next_probe() {
        s.record(mid, mid <= largest_fitting);
    }
    s.best
}

#[test]
fn text_area_of_result_and_refining_windows() {
    assert_eq!(
        text_box(400, 300, false),
        TextBox { h_padding: 2, available_w: 396, available_h: 300, min_size: 2, max_size: 150 }
    );
    assert_eq!(
        text_box(400, 300, true),
        TextBox { h_padding: 20, available_w: 360, available_h: 300, min_size: 8, max_size: 18 }
    );
    assert_eq!(
        text_box(30, 1, false),
        TextBox { h_padding: 2, available_w: 26, available_h: 1, min_size: 2, max_size: 2 }
    );
    assert_eq!(text_box(30, 10, true).available_w, 1);
    assert_eq!(text_box(30, 10, true).max_size, 10);
    assert_eq!(text_box(i32::MIN + 40, 5, false).available_w, 1);
}

#[test]
fn the_search_finds_the_largest_size_that_fits() {
    assert_eq!(search(2, 150, 37), 37);
    assert_eq!(search(2, 150, 150), 150);
    assert_eq!(search(2, 150, 400), 150);
    assert_eq!(search(2, 150, 2), 2);
    assert_eq!(search(2, 150, 0), 2);
    assert_eq!(search(8, 18, 12), 12);
    assert_eq!(search(8, 7, 100), 8);
    for t in 0..160 {
        let expected = if t < 2 { 2 } else if t < 150 { t } else { 150 };
        assert_eq!(search(2, 150, t), expected);
    }
}

#[test]
fn text_is_centred_vertically() {
    assert_eq!(text_offset_y(300, 100), 100);
    assert_eq!(text_offset_y(100, 300), 0);
    assert_eq!(text_offset_y(101, 100), 0);
}

#[test]
fn coordinates_within_the_layout_limits() {
    assert!(coord_in_limits(0));
    assert!(coord_in_limits(0x1000_0000));
    assert!(!coord_in_limits(0x1000_0001));
    assert!(!coord_in_limits(i32::MIN));
}
