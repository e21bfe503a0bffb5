use bevycube::mipmaps::stitch_mip_levels;
use bevycube::history::ViewHistory;
use bevycube::input::{classify_jump_click, ClickButton, JumpClick};
use bevycube::visibility::menu_layers;
use bevycube::wireframe::wireframe_line_indices;

#[test]
fn history_starts_empty() {
    let mut h: ViewHistory<u8> = ViewHistory::new();
    assert_eq!(h.len(), 0);
    assert_eq!(h.back(), None);
    assert_eq!(h.len(), 0);
}

#[test]
fn law_back_returns_left_view() {
    let mut h = ViewHistory::new();
    h.request("start", true);
    h.request("main", true);
    assert_eq!(h.back(), Some("main"));
    assert_eq!(h.len(), 1);
    assert_eq!(h.back(), Some("start"));
    assert_eq!(h.back(), None);
}

#[test]
fn request_that_does_not_move_keeps_history() {
    let mut h = ViewHistory::default();
    h.request(1, true);
    h.request(2, false);
    assert_eq!(h.len(), 1);
    assert_eq!(h.back(), Some(1));
}

#[test]
fn click_classification() {
    assert_eq!(classify_jump_click(false, 10, ClickButton::Primary), JumpClick::Ignore);
    assert_eq!(classify_jump_click(true, 251, ClickButton::Secondary), JumpClick::Ignore);
    assert_eq!(classify_jump_click(true, 250, ClickButton::Primary), JumpClick::Jump);
    assert_eq!(classify_jump_click(true, 0, ClickButton::Secondary), JumpClick::ShowMainMenu);
    assert_eq!(classify_jump_click(true, 100, ClickButton::Middle), JumpClick::GoBack);
}

#[test]
fn layers_all_far() {
    let m = menu_layers(false, &[true, true, true]);
    assert_eq!(m.overlay, 0);
    assert_eq!(m.menus, vec![1, 1, 1]);
    assert_eq!(m.fake_ocean, 0);
}

#[test]
fn layers_one_near() {
    let m = menu_layers(true, &[true, false, true, true, true]);
    assert_eq!(m.overlay, 1);
    assert_eq!(m.menus, vec![1, 0, 1, 1, 1]);
    assert_eq!(m.fake_ocean, 1);
}

#[test]
fn layers_no_menus() {
    let m = menu_layers(false, &[]);
    assert_eq!(m.menus, Vec::<u32>::new());
    assert_eq!(m.fake_ocean, 0);
}

#[test]
fn wireframe_of_two_triangles() {
    let lines = wireframe_line_indices(&[0, 1, 2, 2, 1, 3]);
    assert_eq!(lines, vec![0, 1, 1, 2, 2, 0, 2, 1, 1, 3, 3, 2]);
}

#[test]
fn wireframe_drops_partial_triangle() {
    assert_eq!(wireframe_line_indices(&[4, 5, 6, 7, 8]), vec![4, 5, 5, 6, 6, 4]);
    assert_eq!(wireframe_line_indices(&[4, 5]), Vec::<u32>::new());
    assert_eq!(wireframe_line_indices(&[]), Vec::<u32>::new());
}

#[test]
fn wireframe_truncates_to_u32() {
    let big: usize = (1usize << 32) + 9;
    assert_eq!(wireframe_line_indices(&[big, 1, 2]), vec![9, 1, 1, 2, 2, 9]);
}

#[test]
fn stitch_all_levels() {
    let levels = vec![Some(vec![1u8, 2, 3]), Some(vec![]), Some(vec![4u8])];
    assert_eq!(stitch_mip_levels(&levels), Some(vec![1, 2, 3, 4]));
}

#[test]
fn stitch_waits_for_missing_level() {
    let levels = vec![Some(vec![1u8, 2]), None, Some(vec![4u8])];
    assert_eq!(stitch_mip_levels(&levels), None);
    let none: Vec<Option<Vec<u8>>> = Vec::new();
    assert_eq!(stitch_mip_levels(&none), Some(vec![]));
}
