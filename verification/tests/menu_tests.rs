use bevycube::menu::{
    diamond_category, diamond_items, diamond_slot, find_hit, item_contains, MenuAction, MenuItem, MenuView, Need,
};
use bevycube::settings::GlobalSettings;
use bevycube::tables::{
    about_hitbox_table, main_hitbox_table, ocean_hitbox_table, overlay_hitbox_table, roundel_hitbox_table,
};

fn item(x: u32, y: u32, w: u32, h: u32, diamond: Need, action: MenuAction) -> MenuItem {
    MenuItem { x, y, w, h, diamond, action }
}

#[test]
fn contains_includes_edges() {
    let it = item(10, 20, 5, 6, Need::No, MenuAction::Back);
    assert!(item_contains(&it, 10, 20));
    assert!(item_contains(&it, 15, 26));
    assert!(!item_contains(&it, 16, 26));
    assert!(!item_contains(&it, 15, 27));
    assert!(!item_contains(&it, 9, 22));
}

#[test]
fn contains_does_not_wrap() {
    let it = item(u32::MAX - 1, 0, 10, 10, Need::No, MenuAction::Back);
    assert!(item_contains(&it, u32::MAX, 3));
    assert!(!item_contains(&it, 3, 3));
}

#[test]
fn hit_main_menu_items() {
    let t = main_hitbox_table();
    assert_eq!(find_hit(&t, 360, 60), Some(0));
    assert_eq!(find_hit(&t, 100, 110), Some(1));
    assert_eq!(t[1].action, MenuAction::Execute(MenuView::Instructions));
    assert_eq!(find_hit(&t, 80, 240), Some(4));
    assert_eq!(find_hit(&t, 5, 5), None);
}

#[test]
fn hit_takes_first_overlapping() {
    let t = vec![
        item(0, 0, 10, 10, Need::No, MenuAction::Back),
        item(5, 5, 10, 10, Need::No, MenuAction::SetMeshMode(1)),
    ];
    assert_eq!(find_hit(&t, 7, 7), Some(0));
    assert_eq!(find_hit(&t, 12, 12), Some(1));
}

#[test]
fn hit_overlay_covers_image() {
    let t = overlay_hitbox_table();
    assert_eq!(find_hit(&t, 0, 0), Some(0));
    assert_eq!(find_hit(&t, 511, 511), Some(0));
    assert_eq!(find_hit(&t, 512, 3), None);
}

#[test]
fn hit_empty_table() {
    let t: Vec<MenuItem> = Vec::new();
    assert_eq!(find_hit(&t, 1, 1), None);
}

#[test]
fn categories() {
    assert_eq!(diamond_category(&MenuAction::SetAnisotropy(3)), 1);
    assert_eq!(diamond_category(&MenuAction::SetMipmaps(3)), 2);
    assert_eq!(diamond_category(&MenuAction::SetResolution(3)), 3);
    assert_eq!(diamond_category(&MenuAction::SetMeshMode(3)), 4);
    assert_eq!(diamond_category(&MenuAction::SetMeshDimension(3)), 5);
    assert_eq!(diamond_category(&MenuAction::Back), 0);
    assert_eq!(diamond_category(&MenuAction::OpenUrl("x")), 0);
}

#[test]
fn diamonds_of_ocean_menu() {
    assert_eq!(diamond_items(&ocean_hitbox_table()), vec![1, 4]);
}

#[test]
fn diamonds_of_roundel_menu() {
    assert_eq!(diamond_items(&roundel_hitbox_table()), vec![1, 6, 8]);
}

#[test]
fn no_diamonds_in_plain_menus() {
    assert_eq!(diamond_items(&main_hitbox_table()), Vec::<usize>::new());
    assert_eq!(diamond_items(&about_hitbox_table()), Vec::<usize>::new());
}

#[test]
fn diamond_needs_request_and_category() {
    let t = vec![
        item(0, 0, 1, 1, Need::No, MenuAction::SetMeshMode(0)),
        item(0, 0, 1, 1, Need::Yes, MenuAction::Back),
        item(0, 0, 1, 1, Need::Yes, MenuAction::SetMeshMode(1)),
        item(0, 0, 1, 1, Need::Yes, MenuAction::SetMipmaps(1)),
        item(0, 0, 1, 1, Need::Yes, MenuAction::SetMeshMode(2)),
    ];
    assert_eq!(diamond_items(&t), vec![2, 3]);
}

#[test]
fn slots_for_default_settings() {
    let s = GlobalSettings::default();
    let ocean = ocean_hitbox_table();
    let roundel = roundel_hitbox_table();
    assert_eq!(diamond_slot(&ocean, &MenuAction::SetMeshMode(0), &s), Some(1));
    assert_eq!(diamond_slot(&ocean, &MenuAction::SetMeshDimension(0), &s), Some(6));
    assert_eq!(diamond_slot(&roundel, &MenuAction::SetAnisotropy(0), &s), Some(4));
    assert_eq!(diamond_slot(&roundel, &MenuAction::SetMipmaps(0), &s), Some(6));
    assert_eq!(diamond_slot(&roundel, &MenuAction::SetResolution(0), &s), Some(9));
    assert_eq!(diamond_slot(&roundel, &MenuAction::SetMeshMode(0), &s), None);
    assert_eq!(diamond_slot(&ocean, &MenuAction::Back, &s), None);
}

#[test]
fn law_diamond_follows_click_in_ocean_and_roundel() {
    for table in [ocean_hitbox_table(), roundel_hitbox_table()] {
        for (i, it) in table.iter().enumerate() {
            if diamond_category(&it.action) == 0 {
                continue;
            }
            let mut s = GlobalSettings::default();
            s.apply(&it.action);
            assert_eq!(diamond_slot(&table, &it.action, &s), Some(i));
        }
    }
}

#[test]
fn tables_have_expected_sizes() {
    assert_eq!(main_hitbox_table().len(), 5);
    assert_eq!(ocean_hitbox_table().len(), 11);
    assert_eq!(roundel_hitbox_table().len(), 11);
    assert_eq!(about_hitbox_table().len(), 3);
    assert_eq!(overlay_hitbox_table().len(), 1);
    let about = about_hitbox_table();
    assert_eq!(about[2].action, MenuAction::OpenUrl("https://wbtek.net/"));
    let ocean = ocean_hitbox_table();
    assert_eq!((ocean[10].x, ocean[10].y, ocean[10].w, ocean[10].h), (259, 282, 79, 29));
    assert_eq!(ocean[10].action, MenuAction::SetMeshDimension(320));
}
