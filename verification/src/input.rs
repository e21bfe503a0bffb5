use vstd::prelude::*;

verus! {

/// A pointer button.
#[derive(Clone, Copy, Debug, PartialEq, Eq, Structural)]
pub enum ClickButton {
    Primary,
    Secondary,
    Middle,
}

/// What a click on the ground, the ocean or the disk asks for.
#[derive(Clone, Copy, Debug, PartialEq, Eq, Structural)]
pub enum JumpClick {
    /// Nothing: the ocean meshes are not all there yet, or the button was held too long.
    Ignore,
    /// Fly to the main menu.
    ShowMainMenu,
    /// Go back to the previous view.
    GoBack,
    /// Make the cube jump to the clicked point.
    Jump,
}

/// Longest press, in milliseconds, that still counts as a click.
pub const CLICK_MILLIS: u128 = 250;

/// What a click asks for, given whether the ocean meshes all exist, how long the
/// button was held and which button it was.
pub fn classify_jump_click(oceans_ready: bool, held_millis: u128, button: ClickButton) -> (r: JumpClick)
    ensures
        r == if !oceans_ready || held_millis > CLICK_MILLIS {
            JumpClick::Ignore
        } else if button == ClickButton::Secondary {
            JumpClick::ShowMainMenu
        } else if button == ClickButton::Middle {
            JumpClick::GoBack
        } else {
            JumpClick::Jump
        },
{
    if !oceans_ready {
        return JumpClick::Ignore;
    }
    if held_millis > CLICK_MILLIS {
        return JumpClick::Ignore;
    }
    match button {
        ClickButton::Secondary => JumpClick::ShowMainMenu,
        ClickButton::Middle => JumpClick::GoBack,
        ClickButton::Primary => JumpClick::Jump,
    }
}

} // verus!
