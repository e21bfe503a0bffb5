use vstd::prelude::*;

verus! {

/// Render layers chosen for the menus: 0 shows and makes clickable, 1 hides.
pub struct MenuLayers {
    /// Layer of the camera overlay menu.
    pub overlay: u32,
    /// Layer of each menu, in the order given.
    pub menus: Vec<u32>,
    /// Layer of the invisible ocean stand-in that takes clicks: hidden
    /// while some menu is shown, so that clicks reach the menu.
    pub fake_ocean: u32,
}

/// The render layers of the menus, given whether the overlay is to be hidden
/// (the camera rests on the main menu) and whether each menu is too far from
/// the camera to be shown.
pub fn menu_layers(overlay_hidden: bool, far: &[bool]) -> (m: MenuLayers)
    ensures
        m.overlay == if overlay_hidden { 1u32 } else { 0u32 },
        m.menus@.len() == far@.len(),
        forall|i: int| 0 <= i < far@.len() ==> #[trigger] m.menus@[i] == if far@[i] { 1u32 } else { 0u32 },
        m.fake_ocean == if exists|i: int| 0 <= i < far@.len() && !far@[i] { 1u32 } else { 0u32 },
{
    let overlay: u32 = if overlay_hidden { 1 } else { 0 };
    let mut fake_ocean: u32 = 0;
    let mut menus: Vec<u32> = Vec::new();
    let mut i: usize = 0;
    while i < far.len()
        invariant
            i <= far@.len(),
            menus@.len() == i,
            forall|j: int| 0 <= j < i ==> #[trigger] menus@[j] == if far@[j] { 1u32 } else { 0u32 },
            fake_ocean == if exists|j: int| 0 <= j < i && !far@[j] { 1u32 } else { 0u32 },
        decreases far@.len() - i,
    {
        let layer: u32 = if far[i] {
            1
        } else {
            fake_ocean = 1;
            0
        };
        menus.push(layer);
        i = i + 1;
    }
    MenuLayers { overlay, menus, fake_ocean }
}

} // verus!
