use vstd::prelude::*;

use crate::menu::{hits, MenuAction, MenuItem, MenuView, Need};
use crate::tables::{about_items, main_items, ocean_items, overlay_items, roundel_items};

verus! {

/// Item `i` is the one and only item of `table` whose click does `a`.
pub open spec fn only_item(table: Seq<MenuItem>, a: MenuAction, i: int) -> bool {
    &&& 0 <= i < table.len()
    &&& table[i].action == a
    &&& forall|j: int| 0 <= j < table.len() && #[trigger] table[j].action == a ==> j == i
}

/// Exactly one item of `table` does `a`.
pub open spec fn has_only_item(table: Seq<MenuItem>, a: MenuAction) -> bool {
    exists|i: int| only_item(table, a, i)
}

/// Every rectangle of `table` lies inside the 512 x 512 menu image.
pub open spec fn inside_image(table: Seq<MenuItem>) -> bool {
    forall|i: int|
        0 <= i < table.len() ==> #[trigger] table[i].x + table[i].w <= 511 && table[i].y
            + table[i].h <= 511
}

/// No two rectangles of `table` share a pixel.
pub open spec fn apart(table: Seq<MenuItem>) -> bool {
    forall|i: int, j: int|
        0 <= i < j < table.len() ==> {
            ||| #[trigger] table[i].x + table[i].w < #[trigger] table[j].x
            ||| table[j].x + table[j].w < table[i].x
            ||| table[i].y + table[i].h < table[j].y
            ||| table[j].y + table[j].h < table[i].y
        }
}

/// In a table whose rectangles are apart, a pixel lies in at most one item, so the
/// item that a click finds is the only one under the pointer.
pub proof fn law_apart_items_hit_once(table: Seq<MenuItem>, i: int, j: int, px: u32, py: u32)
    requires
        apart(table),
        0 <= i < table.len(),
        0 <= j < table.len(),
        hits(table[i], px, py),
        hits(table[j], px, py),
    ensures
        i == j,
{
    if i < j {
        assert(table[i].x + table[i].w < table[j].x || table[j].x + table[j].w < table[i].x
            || table[i].y + table[i].h < table[j].y || table[j].y + table[j].h < table[i].y);
    } else if j < i {
        assert(table[j].x + table[j].w < table[i].x || table[i].x + table[i].w < table[j].x
            || table[j].y + table[j].h < table[i].y || table[i].y + table[i].h < table[j].y);
    }
}

/// The main menu: a Back item and one item for each of the instructions, ocean,
/// roundel and about menus, and nothing else; no item shows a diamond.
pub proof fn law_main_menu()
    ensures
        main_items().len() == 5,
        has_only_item(main_items(), MenuAction::Back),
        has_only_item(main_items(), MenuAction::Execute(MenuView::Instructions)),
        has_only_item(main_items(), MenuAction::Execute(MenuView::Ocean)),
        has_only_item(main_items(), MenuAction::Execute(MenuView::Roundel)),
        has_only_item(main_items(), MenuAction::Execute(MenuView::About)),
        forall|i: int| 0 <= i < main_items().len() ==> #[trigger] main_items()[i].diamond == Need::No,
        inside_image(main_items()),
        apart(main_items()),
{
    let t = main_items();
    assert(only_item(t, MenuAction::Back, 0));
    assert(only_item(t, MenuAction::Execute(MenuView::Instructions), 1));
    assert(only_item(t, MenuAction::Execute(MenuView::Ocean), 2));
    assert(only_item(t, MenuAction::Execute(MenuView::Roundel), 3));
    assert(only_item(t, MenuAction::Execute(MenuView::About), 4));
}

/// The ocean menu: a Back item, one item for each mesh mode 0, 1, 2 and one for each
/// cell count 5, 10, 20, 40, 80, 160, 320, and nothing else; the settings items show
/// diamonds, Back does not.
pub proof fn law_ocean_menu()
    ensures
        ocean_items().len() == 11,
        has_only_item(ocean_items(), MenuAction::Back),
        forall|m: u32| m < 3 ==> #[trigger] has_only_item(ocean_items(), MenuAction::SetMeshMode(m)),
        forall|d: u32|
            d == 5 || d == 10 || d == 20 || d == 40 || d == 80 || d == 160 || d == 320 ==> #[trigger] has_only_item(ocean_items(), MenuAction::SetMeshDimension(d)),
        forall|i: int|
            0 <= i < ocean_items().len() ==> (#[trigger] ocean_items()[i].diamond == Need::Yes
                <==> ocean_items()[i].action != MenuAction::Back),
        inside_image(ocean_items()),
        apart(ocean_items()),
{
    let t = ocean_items();
    assert(only_item(t, MenuAction::Back, 0));
    assert forall|m: u32| m < 3 implies has_only_item(t, MenuAction::SetMeshMode(m)) by {
        assert(only_item(t, MenuAction::SetMeshMode(m), m + 1));
    }
    assert forall|d: u32|
        d == 5 || d == 10 || d == 20 || d == 40 || d == 80 || d == 160 || d == 320 implies has_only_item(t, MenuAction::SetMeshDimension(d)) by {
        if d == 5 {
            assert(only_item(t, MenuAction::SetMeshDimension(d), 4));
        } else if d == 10 {
            assert(only_item(t, MenuAction::SetMeshDimension(d), 5));
        } else if d == 20 {
            assert(only_item(t, MenuAction::SetMeshDimension(d), 6));
        } else if d == 40 {
            assert(only_item(t, MenuAction::SetMeshDimension(d), 7));
        } else if d == 80 {
            assert(only_item(t, MenuAction::SetMeshDimension(d), 8));
        } else if d == 160 {
            assert(only_item(t, MenuAction::SetMeshDimension(d), 9));
        } else {
            assert(only_item(t, MenuAction::SetMeshDimension(d), 10));
        }
    }
}

/// The roundel menu: a Back item, one item for each anisotropy 16, 8, 4, 2, 1, for
/// mipmaps on (1) and off (0), and for each resolution 0, 1, 2, and nothing else; the
/// settings items show diamonds, Back does not.
pub proof fn law_roundel_menu()
    ensures
        roundel_items().len() == 11,
        has_only_item(roundel_items(), MenuAction::Back),
        forall|v: u32|
            v == 16 || v == 8 || v == 4 || v == 2 || v == 1 ==> #[trigger] has_only_item(roundel_items(), MenuAction::SetAnisotropy(v)),
        forall|v: u32| v < 2 ==> #[trigger] has_only_item(roundel_items(), MenuAction::SetMipmaps(v)),
        forall|v: u32|
            v < 3 ==> #[trigger] has_only_item(roundel_items(), MenuAction::SetResolution(v)),
        forall|i: int|
            0 <= i < roundel_items().len() ==> (#[trigger] roundel_items()[i].diamond == Need::Yes
                <==> roundel_items()[i].action != MenuAction::Back),
        inside_image(roundel_items()),
        apart(roundel_items()),
{
    let t = roundel_items();
    assert(only_item(t, MenuAction::Back, 0));
    assert forall|v: u32| v == 16 || v == 8 || v == 4 || v == 2 || v == 1 implies has_only_item(t, MenuAction::SetAnisotropy(v)) by {
        if v == 16 {
            assert(only_item(t, MenuAction::SetAnisotropy(v), 1));
        } else if v == 8 {
            assert(only_item(t, MenuAction::SetAnisotropy(v), 2));
        } else if v == 4 {
            assert(only_item(t, MenuAction::SetAnisotropy(v), 3));
        } else if v == 2 {
            assert(only_item(t, MenuAction::SetAnisotropy(v), 4));
        } else {
            assert(only_item(t, MenuAction::SetAnisotropy(v), 5));
        }
    }
    assert forall|v: u32| v < 2 implies has_only_item(t, MenuAction::SetMipmaps(v)) by {
        assert(only_item(t, MenuAction::SetMipmaps(v), 7 - v));
    }
    assert forall|v: u32| v < 3 implies has_only_item(t, MenuAction::SetResolution(v)) by {
        assert(only_item(t, MenuAction::SetResolution(v), 8 + v));
    }
}

/// The about menu: a Back item and two web links, to wbtek.github.io and to wbtek.net.
pub proof fn law_about_menu()
    ensures
        about_items().len() == 3,
        has_only_item(about_items(), MenuAction::Back),
        has_only_item(about_items(), MenuAction::OpenUrl("https://wbtek.github.io/")),
        has_only_item(about_items(), MenuAction::OpenUrl("https://wbtek.net/")),
        inside_image(about_items()),
        apart(about_items()),
{
    let t = about_items();
    assert(only_item(t, MenuAction::Back, 0));
    assert(only_item(t, MenuAction::OpenUrl("https://wbtek.github.io/"), 1));
    assert(only_item(t, MenuAction::OpenUrl("https://wbtek.net/"), 2));
}

/// The camera overlay: one item, covering every pixel of its image, that flies to the main menu.
pub proof fn law_overlay_menu(px: u32, py: u32)
    ensures
        overlay_items().len() == 1,
        overlay_items()[0].action == MenuAction::Execute(MenuView::Main),
        px <= 511 && py <= 511 ==> hits(overlay_items()[0], px, py),
        inside_image(overlay_items()),
{
}

} // verus!
