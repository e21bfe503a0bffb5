use vstd::prelude::*;

use crate::settings::GlobalSettings;

verus! {

/// The menu views that a menu item can send the camera to.
#[derive(Clone, Copy, Debug, PartialEq, Eq, Structural)]
pub enum MenuView {
    Main,
    Instructions,
    Ocean,
    Roundel,
    About,
}

/// What clicking a menu item does.
#[derive(Clone, Copy, Debug, PartialEq, Eq)]
pub enum MenuAction {
    /// Fly the camera to another menu.
    Execute(MenuView),
    /// Return to the view before the last menu request.
    Back,
    SetAnisotropy(u32),
    SetMipmaps(u32),
    SetResolution(u32),
    SetMeshMode(u32),
    SetMeshDimension(u32),
    /// Open a web page.
    OpenUrl(&'static str),
}

/// Whether a menu item shows a selection diamond.
#[derive(Clone, Copy, Debug, PartialEq, Eq, Structural)]
pub enum Need {
    No,
    Yes,
}

/// A clickable rectangle of a menu image, in pixels of the 512 x 512 image:
/// left `x`, top `y`, width `w`, height `h`, edges included.
#[derive(Clone, Copy, Debug)]
pub struct MenuItem {
    pub x: u32,
    pub y: u32,
    pub w: u32,
    pub h: u32,
    pub diamond: Need,
    pub action: MenuAction,
}

/// The pixel `px`, `py` lies in the item's rectangle, edges included.
pub open spec fn hits(item: MenuItem, px: u32, py: u32) -> bool {
    &&& item.x <= px <= item.x + item.w
    &&& item.y <= py <= item.y + item.h
}

/// Whether the pixel `px`, `py` lies in the item's rectangle.
pub fn item_contains(item: &MenuItem, px: u32, py: u32) -> (b: bool)
    ensures
        b == hits(*item, px, py),
{
    let right: u64 = item.x as u64 + item.w as u64;
    let bottom: u64 = item.y as u64 + item.h as u64;
    px >= item.x && (px as u64) <= right && py >= item.y && (py as u64) <= bottom
}

/// The first item of `table` whose rectangle holds the pixel `px`, `py`.
pub fn find_hit(table: &[MenuItem], px: u32, py: u32) -> (r: Option<usize>)
    ensures
        match r {
            Some(i) => {
                &&& i < table@.len()
                &&& hits(table@[i as int], px, py)
                &&& forall|j: int| 0 <= j < i ==> !hits(#[trigger] table@[j], px, py)
            },
            None => forall|j: int| 0 <= j < table@.len() ==> !hits(#[trigger] table@[j], px, py),
        },
{
    let mut i: usize = 0;
    while i < table.len()
        invariant
            i <= table@.len(),
            forall|j: int| 0 <= j < i ==> !hits(#[trigger] table@[j], px, py),
        decreases table@.len() - i,
    {
        if item_contains(&table[i], px, py) {
            return Some(i);
        }
        i = i + 1;
    }
    None
}

/// The diamond category of an action: one per setting, 0 for the others.
pub open spec fn category_of(action: MenuAction) -> u32 {
    match action {
        MenuAction::SetAnisotropy(_) => 1,
        MenuAction::SetMipmaps(_) => 2,
        MenuAction::SetResolution(_) => 3,
        MenuAction::SetMeshMode(_) => 4,
        MenuAction::SetMeshDimension(_) => 5,
        _ => 0,
    }
}

/// The diamond category of an action: 1 to 5 for the five settings, 0 otherwise.
pub fn diamond_category(action: &MenuAction) -> (c: u32)
    ensures
        c == category_of(*action),
{
    match action {
        MenuAction::SetAnisotropy(_) => 1,
        MenuAction::SetMipmaps(_) => 2,
        MenuAction::SetResolution(_) => 3,
        MenuAction::SetMeshMode(_) => 4,
        MenuAction::SetMeshDimension(_) => 5,
        _ => 0,
    }
}

/// The item asks for a diamond and belongs to a settings category.
pub open spec fn wants_diamond(item: MenuItem) -> bool {
    item.diamond == Need::Yes && category_of(item.action) > 0
}

/// Item `i` is the first of `table` that asks for a diamond in its category:
/// the item on which that category's diamond is created.
pub open spec fn opens_category(table: Seq<MenuItem>, i: int) -> bool {
    &&& wants_diamond(table[i])
    &&& forall|j: int|
        0 <= j < i ==> !(wants_diamond(#[trigger] table[j]) && category_of(table[j].action)
            == category_of(table[i].action))
}

/// Whether `cats` holds `c`.
fn holds_category(cats: &Vec<u32>, c: u32) -> (b: bool)
    ensures
        b == cats@.contains(c),
{
    let mut k: usize = 0;
    while k < cats.len()
        invariant
            k <= cats@.len(),
            forall|j: int| 0 <= j < k ==> cats@[j] != c,
        decreases cats@.len() - k,
    {
        if cats[k] == c {
            return true;
        }
        k = k + 1;
    }
    false
}

/// The positions in `table` of the items that get a diamond: for each settings
/// category, the first item that asks for one. They come in table order.
pub fn diamond_items(table: &[MenuItem]) -> (v: Vec<usize>)
    ensures
        forall|k: int| 0 <= k < v@.len() ==> #[trigger] v@[k] < table@.len(),
        forall|k: int| 0 <= k < v@.len() ==> opens_category(table@, #[trigger] v@[k] as int),
        forall|k1: int, k2: int| 0 <= k1 < k2 < v@.len() ==> v@[k1] < v@[k2],
        forall|i: int| 0 <= i < table@.len() && opens_category(table@, i) ==> v@.contains(i as usize),
{
    let mut spawned: Vec<u32> = Vec::new();
    let mut v: Vec<usize> = Vec::new();
    let mut i: usize = 0;
    while i < table.len()
        invariant
            i <= table@.len(),
            spawned@.len() == v@.len(),
            forall|k: int| 0 <= k < v@.len() ==> #[trigger] v@[k] < i,
            forall|k: int| 0 <= k < v@.len() ==> opens_category(table@, #[trigger] v@[k] as int),
            forall|k: int|
                0 <= k < v@.len() ==> #[trigger] spawned@[k] == category_of(table@[v@[k] as int].action),
            forall|k1: int, k2: int| 0 <= k1 < k2 < v@.len() ==> v@[k1] < v@[k2],
            forall|j: int| 0 <= j < i && opens_category(table@, j) ==> v@.contains(j as usize),
            forall|j: int|
                0 <= j < i && wants_diamond(#[trigger] table@[j]) ==> spawned@.contains(
                    category_of(table@[j].action),
                ),
        decreases table@.len() - i,
    {
        let item = &table[i];
        if let Need::Yes = item.diamond {
            let cat_id = diamond_category(&item.action);
            if cat_id > 0 && !holds_category(&spawned, cat_id) {
                proof {
                    assert forall|j: int| 0 <= j < i implies !(wants_diamond(#[trigger] table@[j])
                        && category_of(table@[j].action) == category_of(table@[i as int].action)) by {
                        if wants_diamond(table@[j]) && category_of(table@[j].action) == cat_id {
                            assert(spawned@.contains(category_of(table@[j].action)));
                        }
                    }
                }
                let ghost old_v = v@;
                let ghost old_spawned = spawned@;
                v.push(i);
                spawned.push(cat_id);
                proof {
                    assert(v@[old_v.len() as int] == i);
                    assert forall|j: int| 0 <= j <= i && opens_category(table@, j) implies v@.contains(
                        j as usize,
                    ) by {
                        if j < i {
                            let k = choose|k: int| 0 <= k < old_v.len() && old_v[k] == j as usize;
                            assert(v@[k] == j as usize);
                        } else {
                            assert(v@[old_v.len() as int] == j as usize);
                        }
                    }
                    assert forall|j: int|
                        0 <= j <= i && wants_diamond(#[trigger] table@[j]) implies spawned@.contains(
                        category_of(table@[j].action),
                    ) by {
                        if j < i {
                            assert(old_spawned.contains(category_of(table@[j].action)));
                            let k = choose|k: int|
                                0 <= k < old_spawned.len() && old_spawned[k] == category_of(
                                    table@[j].action,
                                );
                            assert(spawned@[k] == category_of(table@[j].action));
                        } else {
                            assert(spawned@[spawned@.len() - 1] == category_of(table@[j].action));
                        }
                    }
                }
            } else {
                proof {
                    assert forall|j: int| 0 <= j <= i && opens_category(table@, j) implies v@.contains(
                        j as usize,
                    ) by {
                        if j == i {
                            let k = choose|k: int| 0 <= k < spawned@.len() && spawned@[k] == cat_id;
                            assert(opens_category(table@, v@[k] as int));
                            assert(v@[k] < i);
                        }
                    }
                }
            }
        }
        i = i + 1;
    }
    v
}

/// The menu item `action` is the choice that the settings `s` hold, in the
/// settings category of `category`.
pub open spec fn marks_setting(action: MenuAction, category: MenuAction, s: GlobalSettings) -> bool {
    match (action, category) {
        (MenuAction::SetMeshMode(v), MenuAction::SetMeshMode(_)) => v == s.mesh_mode,
        (MenuAction::SetAnisotropy(v), MenuAction::SetAnisotropy(_)) => v == s.anisotropy,
        (MenuAction::SetMipmaps(v), MenuAction::SetMipmaps(_)) => v == s.mipmaps,
        (MenuAction::SetResolution(v), MenuAction::SetResolution(_)) => v == s.asset_resolution,
        (MenuAction::SetMeshDimension(v), MenuAction::SetMeshDimension(_)) => v == s.mesh_dimension,
        _ => false,
    }
}

fn marks(action: &MenuAction, category: &MenuAction, s: &GlobalSettings) -> (b: bool)
    ensures
        b == marks_setting(*action, *category, *s),
{
    match (action, category) {
        (MenuAction::SetMeshMode(v), MenuAction::SetMeshMode(_)) => *v == s.mesh_mode,
        (MenuAction::SetAnisotropy(v), MenuAction::SetAnisotropy(_)) => *v == s.anisotropy,
        (MenuAction::SetMipmaps(v), MenuAction::SetMipmaps(_)) => *v == s.mipmaps,
        (MenuAction::SetResolution(v), MenuAction::SetResolution(_)) => *v == s.asset_resolution,
        (MenuAction::SetMeshDimension(v), MenuAction::SetMeshDimension(_)) => *v
            == s.mesh_dimension,
        _ => false,
    }
}

/// The item on which the diamond of `category`'s settings category sits:
/// the first item of `table` that holds the value the settings `s` hold.
pub fn diamond_slot(table: &[MenuItem], category: &MenuAction, s: &GlobalSettings) -> (r: Option<
    usize,
>)
    ensures
        match r {
            Some(i) => {
                &&& i < table@.len()
                &&& marks_setting(table@[i as int].action, *category, *s)
                &&& forall|j: int|
                    0 <= j < i ==> !marks_setting(#[trigger] table@[j].action, *category, *s)
            },
            None => forall|j: int|
                0 <= j < table@.len() ==> !marks_setting(#[trigger] table@[j].action, *category, *s),
        },
{
    let mut i: usize = 0;
    while i < table.len()
        invariant
            i <= table@.len(),
            forall|j: int| 0 <= j < i ==> !marks_setting(#[trigger] table@[j].action, *category, *s),
        decreases table@.len() - i,
    {
        if marks(&table[i].action, category, s) {
            return Some(i);
        }
        i = i + 1;
    }
    None
}

} // verus!
