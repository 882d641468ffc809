use overlay_core::layout::{
    calculate_next_window_rect, get_copy_btn_rect, get_download_btn_rect, get_edit_btn_rect,
    get_markdown_btn_rect, get_redo_btn_rect, get_resize_edge, get_speaker_btn_rect,
    get_undo_btn_rect, markdown_view_bounds, point_in_padded_rect, point_in_rect, rects_overlap,
    resized_window_rect, selection_rect, should_show_buttons, would_overlap_existing, Point, Rect,
    ResizeEdge,
};

fn rect(left: i32, top: i32, right: i32, bottom: i32) -> Rect {
    Rect { left, top, right, bottom }
}

#[test]
fn buttons_shown_from_two_hundred_pixels() {
    assert!(!should_show_buttons(199, 500));
    assert!(should_show_buttons(200, 10));
    assert!(should_show_buttons(800, 600));
}

#[test]
fn overlap_counts_half_the_gap_on_each_side() {
    let a = rect(0, 0, 100, 100);
    assert!(rects_overlap(&a, &rect(110, 0, 200, 100), 15));
    assert!(!rects_overlap(&a, &rect(115, 0, 200, 100), 15));
    assert!(!rects_overlap(&a, &rect(0, 120, 100, 200), 15));
    assert!(rects_overlap(&a, &rect(50, 50, 60, 60), 0));
}

#[test]
fn overlap_with_any_existing_rectangle() {
    let existing = [rect(0, 0, 100, 100), rect(500, 500, 600, 600)];
    assert!(would_overlap_existing(&rect(550, 550, 700, 700), &existing, 15));
    assert!(!would_overlap_existing(&rect(200, 200, 300, 300), &existing, 15));
    assert!(!would_overlap_existing(&rect(200, 200, 300, 300), &[], 15));
}

#[test]
fn next_window_goes_right_when_free() {
    let prev = rect(100, 100, 300, 200);
    let r = calculate_next_window_rect(prev, 1920, 1080, &[]);
    assert_eq!(r, rect(315, 100, 515, 200));
}

#[test]
fn next_window_goes_below_when_right_is_taken() {
    let prev = rect(100, 100, 300, 200);
    let taken = [prev, rect(315, 100, 515, 200)];
    let r = calculate_next_window_rect(prev, 1920, 1080, &taken);
    assert_eq!(r, rect(100, 215, 300, 315));
}

#[test]
fn next_window_goes_left_at_the_right_screen_edge() {
    let prev = rect(1700, 900, 1900, 1000);
    let r = calculate_next_window_rect(prev, 1920, 1080, &[prev]);
    assert_eq!(r, rect(1485, 900, 1685, 1000));
}

#[test]
fn next_window_keeps_the_size_of_the_previous_one() {
    let prev = rect(10, 20, 410, 320);
    let existing = [prev, rect(425, 20, 825, 320), rect(10, 335, 410, 635)];
    let r = calculate_next_window_rect(prev, 1000, 700, &existing);
    assert_eq!(r.right - r.left, 400);
    assert_eq!(r.bottom - r.top, 300);
    assert!(!would_overlap_existing(&r, &existing, 15));
}

#[test]
fn next_window_falls_back_to_a_cascade_when_everything_is_blocked() {
    let prev = rect(0, 0, 1000, 1000);
    let r = calculate_next_window_rect(prev, 1000, 1000, &[rect(-5000, -5000, 5000, 5000)]);
    assert_eq!(r, rect(40, 40, 1040, 1040));
}

#[test]
fn copy_button_sits_in_the_bottom_right_corner() {
    assert_eq!(get_copy_btn_rect(400, 300), rect(360, 260, 388, 288));
}

#[test]
fn button_row_steps_left_by_thirty_six_pixels() {
    assert_eq!(get_speaker_btn_rect(400, 300), rect(324, 260, 352, 288));
    assert_eq!(get_edit_btn_rect(400, 300), rect(288, 260, 316, 288));
    assert_eq!(get_markdown_btn_rect(400, 300), rect(252, 260, 280, 288));
    assert_eq!(get_download_btn_rect(400, 300), rect(216, 260, 244, 288));
    assert_eq!(get_undo_btn_rect(400, 300), rect(180, 260, 208, 288));
    assert_eq!(get_redo_btn_rect(400, 300), rect(144, 260, 172, 288));
}

#[test]
fn buttons_are_centred_in_a_short_window() {
    assert_eq!(get_copy_btn_rect(400, 40), rect(360, 6, 388, 34));
    assert_eq!(get_copy_btn_rect(400, 20), rect(360, -4, 388, 24));
}

#[test]
fn resize_edges_and_corners() {
    assert_eq!(get_resize_edge(100, 100, 2, 2), ResizeEdge::TopLeft);
    assert_eq!(get_resize_edge(100, 100, 95, 3), ResizeEdge::TopRight);
    assert_eq!(get_resize_edge(100, 100, 1, 99), ResizeEdge::BottomLeft);
    assert_eq!(get_resize_edge(100, 100, 92, 92), ResizeEdge::BottomRight);
    assert_eq!(get_resize_edge(100, 100, 7, 50), ResizeEdge::Left);
    assert_eq!(get_resize_edge(100, 100, 92, 50), ResizeEdge::Right);
    assert_eq!(get_resize_edge(100, 100, 50, 0), ResizeEdge::Top);
    assert_eq!(get_resize_edge(100, 100, 50, 92), ResizeEdge::Bottom);
    assert_eq!(get_resize_edge(100, 100, 8, 8), ResizeEdge::NoEdge);
    assert_eq!(get_resize_edge(100, 100, 91, 91), ResizeEdge::NoEdge);
}

#[test]
fn resizing_stops_at_the_minimum_size() {
    let start = rect(0, 0, 100, 100);
    assert_eq!(resized_window_rect(start, ResizeEdge::Right, -80, 0), rect(0, 0, 40, 100));
    assert_eq!(resized_window_rect(start, ResizeEdge::Left, 90, 0), rect(60, 0, 100, 100));
    assert_eq!(resized_window_rect(start, ResizeEdge::Bottom, 0, -90), rect(0, 0, 100, 30));
    assert_eq!(resized_window_rect(start, ResizeEdge::Top, 0, 90), rect(0, 70, 100, 100));
}

#[test]
fn resizing_a_corner_moves_two_edges() {
    let start = rect(10, 10, 110, 110);
    assert_eq!(resized_window_rect(start, ResizeEdge::BottomRight, 20, 30), rect(10, 10, 130, 140));
    assert_eq!(resized_window_rect(start, ResizeEdge::TopLeft, -5, -6), rect(5, 4, 110, 110));
    assert_eq!(resized_window_rect(start, ResizeEdge::NoEdge, 50, 50), start);
}

#[test]
fn padded_hit_test_includes_the_edges() {
    let r = rect(10, 10, 20, 20);
    assert!(point_in_padded_rect(5, 5, &r, 5));
    assert!(!point_in_padded_rect(4, 10, &r, 5));
    assert!(point_in_padded_rect(20, 20, &r, 0));
    assert!(!point_in_padded_rect(21, 20, &r, 0));
}

#[test]
fn selection_rectangle_is_normalised() {
    let r = selection_rect(Point { x: 50, y: 10 }, Point { x: 20, y: 40 });
    assert_eq!(r, rect(20, 10, 50, 40));
}

#[test]
fn markdown_view_keeps_margins_and_minimum_width() {
    assert_eq!(markdown_view_bounds(100, 50, false, false), (4, 2, 92, 46));
    assert_eq!(markdown_view_bounds(40, 2, false, false), (4, 2, 50, 0));
}

#[test]
fn hovered_markdown_view_leaves_room_for_the_buttons() {
    assert_eq!(markdown_view_bounds(300, 200, true, false), (4, 2, 292, 146));
    assert_eq!(markdown_view_bounds(300, 40, true, false), (4, 2, 292, 0));
}

#[test]
fn refine_input_pushes_the_markdown_view_down() {
    assert_eq!(markdown_view_bounds(300, 200, false, true), (4, 44, 292, 154));
    assert_eq!(markdown_view_bounds(300, 200, true, true), (4, 44, 292, 104));
}

#[test]
fn cursor_inside_a_window_excludes_the_far_edges() {
    let r = rect(10, 10, 20, 20);
    assert!(point_in_rect(10, 10, &r));
    assert!(point_in_rect(19, 19, &r));
    assert!(!point_in_rect(20, 15, &r));
    assert!(!point_in_rect(15, 20, &r));
    assert!(!point_in_rect(9, 15, &r));
}

#[test]
fn download_button_sits_between_markdown_and_undo() {
    let m = get_markdown_btn_rect(500, 200);
    let d = get_download_btn_rect(500, 200);
    let u = get_undo_btn_rect(500, 200);
    assert!(u.right <= d.left && d.right <= m.left);
    assert_eq!((d.top, d.bottom), (m.top, m.bottom));
}

#[test]
fn buttons_of_very_large_windows() {
    let c = get_copy_btn_rect(i32::MAX, i32::MAX);
    assert_eq!(c.right, i32::MAX - 12);
    let r = get_redo_btn_rect(i32::MIN + 256, 100);
    assert_eq!(r.left, i32::MIN);
}
