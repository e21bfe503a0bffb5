use vstd::prelude::*;

use crate::menu::{MenuAction, MenuItem, MenuView, Need};

verus! {

/// The hitbox table of the main menu.
pub open spec fn main_items() -> Seq<MenuItem> {
    seq![
        MenuItem { x: 354, y: 57, w: 74, h: 29, diamond: Need::No, action: MenuAction::Back },
        MenuItem { x: 79, y: 102, w: 167, h: 29, diamond: Need::No, action: MenuAction::Execute(MenuView::Instructions) },
        MenuItem { x: 80, y: 147, w: 207, h: 38, diamond: Need::No, action: MenuAction::Execute(MenuView::Ocean) },
        MenuItem { x: 79, y: 192, w: 235, h: 38, diamond: Need::No, action: MenuAction::Execute(MenuView::Roundel) },
        MenuItem { x: 80, y: 237, w: 85, h: 33, diamond: Need::No, action: MenuAction::Execute(MenuView::About) },
    ]
}

/// The hitbox table of the main menu.
pub fn main_hitbox_table() -> (t: Vec<MenuItem>)
    ensures
        t@ == main_items(),
{
    let t = vec![
        MenuItem { x: 354, y: 57, w: 74, h: 29, diamond: Need::No, action: MenuAction::Back },
        MenuItem { x: 79, y: 102, w: 167, h: 29, diamond: Need::No, action: MenuAction::Execute(MenuView::Instructions) },
        MenuItem { x: 80, y: 147, w: 207, h: 38, diamond: Need::No, action: MenuAction::Execute(MenuView::Ocean) },
        MenuItem { x: 79, y: 192, w: 235, h: 38, diamond: Need::No, action: MenuAction::Execute(MenuView::Roundel) },
        MenuItem { x: 80, y: 237, w: 85, h: 33, diamond: Need::No, action: MenuAction::Execute(MenuView::About) },
    ];
    assert(t@ =~= main_items());
    t
}

/// The hitbox table of the ocean menu: mesh mode (solid, wire, points) and cells per side.
pub open spec fn ocean_items() -> Seq<MenuItem> {
    seq![
        MenuItem { x: 354, y: 57, w: 74, h: 29, diamond: Need::No, action: MenuAction::Back },
        MenuItem { x: 111, y: 147, w: 97, h: 30, diamond: Need::Yes, action: MenuAction::SetMeshMode(0) },
        MenuItem { x: 214, y: 147, w: 93, h: 29, diamond: Need::Yes, action: MenuAction::SetMeshMode(1) },
        MenuItem { x: 316, y: 147, w: 107, h: 29, diamond: Need::Yes, action: MenuAction::SetMeshMode(2) },
        MenuItem { x: 111, y: 237, w: 40, h: 29, diamond: Need::Yes, action: MenuAction::SetMeshDimension(5) },
        MenuItem { x: 160, y: 237, w: 55, h: 29, diamond: Need::Yes, action: MenuAction::SetMeshDimension(10) },
        MenuItem { x: 221, y: 237, w: 56, h: 29, diamond: Need::Yes, action: MenuAction::SetMeshDimension(20) },
        MenuItem { x: 289, y: 237, w: 56, h: 29, diamond: Need::Yes, action: MenuAction::SetMeshDimension(40) },
        MenuItem { x: 111, y: 282, w: 60, h: 29, diamond: Need::Yes, action: MenuAction::SetMeshDimension(80) },
        MenuItem { x: 179, y: 282, w: 72, h: 29, diamond: Need::Yes, action: MenuAction::SetMeshDimension(160) },
        MenuItem { x: 259, y: 282, w: 79, h: 29, diamond: Need::Yes, action: MenuAction::SetMeshDimension(320) },
    ]
}

/// The hitbox table of the ocean menu: mesh mode (solid, wire, points) and cells per side.
pub fn ocean_hitbox_table() -> (t: Vec<MenuItem>)
    ensures
        t@ == ocean_items(),
{
    let t = vec![
        MenuItem { x: 354, y: 57, w: 74, h: 29, diamond: Need::No, action: MenuAction::Back },
        MenuItem { x: 111, y: 147, w: 97, h: 30, diamond: Need::Yes, action: MenuAction::SetMeshMode(0) },
        MenuItem { x: 214, y: 147, w: 93, h: 29, diamond: Need::Yes, action: MenuAction::SetMeshMode(1) },
        MenuItem { x: 316, y: 147, w: 107, h: 29, diamond: Need::Yes, action: MenuAction::SetMeshMode(2) },
        MenuItem { x: 111, y: 237, w: 40, h: 29, diamond: Need::Yes, action: MenuAction::SetMeshDimension(5) },
        MenuItem { x: 160, y: 237, w: 55, h: 29, diamond: Need::Yes, action: MenuAction::SetMeshDimension(10) },
        MenuItem { x: 221, y: 237, w: 56, h: 29, diamond: Need::Yes, action: MenuAction::SetMeshDimension(20) },
        MenuItem { x: 289, y: 237, w: 56, h: 29, diamond: Need::Yes, action: MenuAction::SetMeshDimension(40) },
        MenuItem { x: 111, y: 282, w: 60, h: 29, diamond: Need::Yes, action: MenuAction::SetMeshDimension(80) },
        MenuItem { x: 179, y: 282, w: 72, h: 29, diamond: Need::Yes, action: MenuAction::SetMeshDimension(160) },
        MenuItem { x: 259, y: 282, w: 79, h: 29, diamond: Need::Yes, action: MenuAction::SetMeshDimension(320) },
    ];
    assert(t@ =~= ocean_items());
    t
}

/// The hitbox table of the roundel texture menu: anisotropy, mipmaps and resolution.
pub open spec fn roundel_items() -> Seq<MenuItem> {
    seq![
        MenuItem { x: 354, y: 57, w: 73, h: 29, diamond: Need::No, action: MenuAction::Back },
        MenuItem { x: 111, y: 147, w: 52, h: 29, diamond: Need::Yes, action: MenuAction::SetAnisotropy(16) },
        MenuItem { x: 171, y: 147, w: 40, h: 29, diamond: Need::Yes, action: MenuAction::SetAnisotropy(8) },
        MenuItem { x: 219, y: 147, w: 39, h: 29, diamond: Need::Yes, action: MenuAction::SetAnisotropy(4) },
        MenuItem { x: 266, y: 147, w: 39, h: 29, diamond: Need::Yes, action: MenuAction::SetAnisotropy(2) },
        MenuItem { x: 314, y: 147, w: 69, h: 38, diamond: Need::Yes, action: MenuAction::SetAnisotropy(1) },
        MenuItem { x: 111, y: 237, w: 62, h: 29, diamond: Need::Yes, action: MenuAction::SetMipmaps(1) },
        MenuItem { x: 182, y: 237, w: 68, h: 38, diamond: Need::Yes, action: MenuAction::SetMipmaps(0) },
        MenuItem { x: 111, y: 327, w: 90, h: 38, diamond: Need::Yes, action: MenuAction::SetResolution(0) },
        MenuItem { x: 210, y: 327, w: 136, h: 29, diamond: Need::Yes, action: MenuAction::SetResolution(1) },
        MenuItem { x: 354, y: 328, w: 75, h: 37, diamond: Need::Yes, action: MenuAction::SetResolution(2) },
    ]
}

/// The hitbox table of the roundel texture menu: anisotropy, mipmaps and resolution.
pub fn roundel_hitbox_table() -> (t: Vec<MenuItem>)
    ensures
        t@ == roundel_items(),
{
    let t = vec![
        MenuItem { x: 354, y: 57, w: 73, h: 29, diamond: Need::No, action: MenuAction::Back },
        MenuItem { x: 111, y: 147, w: 52, h: 29, diamond: Need::Yes, action: MenuAction::SetAnisotropy(16) },
        MenuItem { x: 171, y: 147, w: 40, h: 29, diamond: Need::Yes, action: MenuAction::SetAnisotropy(8) },
        MenuItem { x: 219, y: 147, w: 39, h: 29, diamond: Need::Yes, action: MenuAction::SetAnisotropy(4) },
        MenuItem { x: 266, y: 147, w: 39, h: 29, diamond: Need::Yes, action: MenuAction::SetAnisotropy(2) },
        MenuItem { x: 314, y: 147, w: 69, h: 38, diamond: Need::Yes, action: MenuAction::SetAnisotropy(1) },
        MenuItem { x: 111, y: 237, w: 62, h: 29, diamond: Need::Yes, action: MenuAction::SetMipmaps(1) },
        MenuItem { x: 182, y: 237, w: 68, h: 38, diamond: Need::Yes, action: MenuAction::SetMipmaps(0) },
        MenuItem { x: 111, y: 327, w: 90, h: 38, diamond: Need::Yes, action: MenuAction::SetResolution(0) },
        MenuItem { x: 210, y: 327, w: 136, h: 29, diamond: Need::Yes, action: MenuAction::SetResolution(1) },
        MenuItem { x: 354, y: 328, w: 75, h: 37, diamond: Need::Yes, action: MenuAction::SetResolution(2) },
    ];
    assert(t@ =~= roundel_items());
    t
}

/// The hitbox table of the about menu.
pub open spec fn about_items() -> Seq<MenuItem> {
    seq![
        MenuItem { x: 354, y: 57, w: 74, h: 29, diamond: Need::No, action: MenuAction::Back },
        MenuItem { x: 79, y: 252, w: 176, h: 19, diamond: Need::No, action: MenuAction::OpenUrl("https://wbtek.github.io/") },
        MenuItem { x: 79, y: 314, w: 133, h: 19, diamond: Need::No, action: MenuAction::OpenUrl("https://wbtek.net/") },
    ]
}

/// The hitbox table of the about menu.
pub fn about_hitbox_table() -> (t: Vec<MenuItem>)
    ensures
        t@ == about_items(),
{
    let t = vec![
        MenuItem { x: 354, y: 57, w: 74, h: 29, diamond: Need::No, action: MenuAction::Back },
        MenuItem { x: 79, y: 252, w: 176, h: 19, diamond: Need::No, action: MenuAction::OpenUrl("https://wbtek.github.io/") },
        MenuItem { x: 79, y: 314, w: 133, h: 19, diamond: Need::No, action: MenuAction::OpenUrl("https://wbtek.net/") },
    ];
    assert(t@ =~= about_items());
    t
}

/// The hitbox table of the camera overlay, which covers its whole image.
pub open spec fn overlay_items() -> Seq<MenuItem> {
    seq![
        MenuItem { x: 0, y: 0, w: 511, h: 511, diamond: Need::No, action: MenuAction::Execute(MenuView::Main) },
    ]
}

/// The hitbox table of the camera overlay, which covers its whole image.
pub fn overlay_hitbox_table() -> (t: Vec<MenuItem>)
    ensures
        t@ == overlay_items(),
{
    let t = vec![
        MenuItem { x: 0, y: 0, w: 511, h: 511, diamond: Need::No, action: MenuAction::Execute(MenuView::Main) },
    ];
    assert(t@ =~= overlay_items());
    t
}

} // verus!
