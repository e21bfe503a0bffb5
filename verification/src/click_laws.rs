use vstd::prelude::*;

use crate::menu::{category_of, hits, marks_setting, opens_category, wants_diamond, MenuAction, MenuItem};
use crate::settings::GlobalSettings;

verus! {

/// A settings click changes only its own setting, to the clicked value. The one
/// coupling: anisotropy above 1 turns mipmaps on (anisotropy 0 or 1 leaves mipmaps
/// as they were), and mipmaps off set anisotropy to 1 (mipmaps on leave it as it was).
/// Clicks that are no settings change nothing.
pub proof fn law_click_changes_only_its_setting(s: GlobalSettings, v: u32, other: MenuAction)
    requires
        category_of(other) == 0,
    ensures
        ({
            let t = s.after_action(MenuAction::SetAnisotropy(v));
            &&& t.anisotropy == v
            &&& v > 1 ==> t.mipmaps == 1
            &&& v <= 1 ==> t.mipmaps == s.mipmaps
            &&& t.asset_resolution == s.asset_resolution
            &&& t.mesh_mode == s.mesh_mode
            &&& t.mesh_dimension == s.mesh_dimension
        }),
        ({
            let t = s.after_action(MenuAction::SetMipmaps(v));
            &&& t.mipmaps == v
            &&& v == 0 ==> t.anisotropy == 1
            &&& v != 0 ==> t.anisotropy == s.anisotropy
            &&& t.asset_resolution == s.asset_resolution
            &&& t.mesh_mode == s.mesh_mode
            &&& t.mesh_dimension == s.mesh_dimension
        }),
        ({
            let t = s.after_action(MenuAction::SetResolution(v));
            &&& t.asset_resolution == v
            &&& t.anisotropy == s.anisotropy && t.mipmaps == s.mipmaps
            &&& t.mesh_mode == s.mesh_mode && t.mesh_dimension == s.mesh_dimension
        }),
        ({
            let t = s.after_action(MenuAction::SetMeshMode(v));
            &&& t.mesh_mode == v
            &&& t.anisotropy == s.anisotropy && t.mipmaps == s.mipmaps
            &&& t.asset_resolution == s.asset_resolution && t.mesh_dimension == s.mesh_dimension
        }),
        ({
            let t = s.after_action(MenuAction::SetMeshDimension(v));
            &&& t.mesh_dimension == v
            &&& t.anisotropy == s.anisotropy && t.mipmaps == s.mipmaps
            &&& t.asset_resolution == s.asset_resolution && t.mesh_mode == s.mesh_mode
        }),
        s.after_action(other) == s,
{
}

/// A pixel is in an item exactly when it lies between the item's left and right
/// edges and between its top and bottom edges, all four edges included.
pub proof fn law_hit_is_inside_rectangle(item: MenuItem, px: u32, py: u32)
    ensures
        hits(item, px, py) ==> item.x as int <= px as int,
        hits(item, px, py) ==> px as int <= item.x as int + item.w as int,
        hits(item, px, py) ==> item.y as int <= py as int,
        hits(item, px, py) ==> py as int <= item.y as int + item.h as int,
        (item.x as int <= px as int <= item.x as int + item.w as int && item.y as int <= py as int
            <= item.y as int + item.h as int) ==> hits(item, px, py),
{
}

/// The five settings have five different, non-zero diamond categories; every other
/// action has category 0. Items of one setting share its category whatever their value.
pub proof fn law_categories(a: MenuAction, b: MenuAction)
    ensures
        category_of(a) <= 5,
        (a is SetAnisotropy || a is SetMipmaps || a is SetResolution || a is SetMeshMode
            || a is SetMeshDimension) <==> category_of(a) > 0,
        category_of(a) > 0 && category_of(a) == category_of(b) ==> ((a is SetAnisotropy
            <==> b is SetAnisotropy) && (a is SetMipmaps <==> b is SetMipmaps) && (a is SetResolution
            <==> b is SetResolution) && (a is SetMeshMode <==> b is SetMeshMode) && (
        a is SetMeshDimension <==> b is SetMeshDimension)),
{
}

/// In each settings category at most one value is marked by given settings: two marked
/// items of one category carry the same action. A marked item belongs to the category
/// asked about, and a clicked item is marked afterwards; so the marked item is the one
/// whose value the settings hold.
pub proof fn law_one_marked_value(a: MenuAction, b: MenuAction, c: MenuAction, s: GlobalSettings)
    ensures
        marks_setting(a, c, s) ==> category_of(a) > 0 && category_of(a) == category_of(c),
        marks_setting(a, c, s) && marks_setting(b, c, s) ==> a == b,
        category_of(a) > 0 ==> marks_setting(a, a, s.after_action(a)),
        marks_setting(a, c, s) && category_of(b) == category_of(c) ==> marks_setting(a, b, s),
{
}

/// Diamonds: the items that open a category all have different categories, and every
/// item that asks for a diamond has its category opened by itself or by an earlier item.
pub proof fn law_one_diamond_per_category(table: Seq<MenuItem>, i: int, j: int)
    ensures
        0 <= i < j < table.len() && opens_category(table, i) && opens_category(table, j)
            ==> category_of(table[i].action) != category_of(table[j].action),
        0 <= j < table.len() && wants_diamond(table[j]) ==> exists|k: int|
            0 <= k <= j && opens_category(table, k) && category_of(table[k].action)
                == category_of(table[j].action),
    decreases j,
{
    if 0 <= j < table.len() && wants_diamond(table[j]) && !opens_category(table, j) {
        let k = choose|k: int|
            0 <= k < j && wants_diamond(#[trigger] table[k]) && category_of(table[k].action)
                == category_of(table[j].action);
        law_one_diamond_per_category(table, i, k);
        let m = choose|m: int|
            0 <= m <= k && opens_category(table, m) && category_of(table[m].action)
                == category_of(table[k].action);
        assert(0 <= m <= j && opens_category(table, m));
    }
    if 0 <= i < j < table.len() && opens_category(table, i) && opens_category(table, j) {
        assert(wants_diamond(table[i]));
    }
}

} // verus!
