//! Focus arbitration with an immediate-mode UI overlay.
use vstd::prelude::*;

verus! {

/// Whether the UI overlay wanted pointer or keyboard input, this frame and the
/// frame before.
#[derive(Clone, Copy, Debug, PartialEq, Eq, Structural)]
pub struct EguiFocusState {
    /// Whether the overlay wants focus this frame.
    pub current_frame_wants_focus: bool,
    /// Whether the overlay wanted focus in the previous frame.
    pub previous_frame_wanted_focus: bool,
}

/// What the overlay reported for one window this frame.
#[derive(Clone, Copy, Debug, PartialEq, Eq, Structural)]
pub struct EguiWindowInput {
    pub wants_pointer_input: bool,
    pub wants_keyboard_input: bool,
    pub pointer_over_area: bool,
}

impl EguiWindowInput {
    pub open spec fn wants_focus_spec(self) -> bool {
        self.wants_pointer_input || self.wants_keyboard_input || self.pointer_over_area
    }
}

impl Default for EguiFocusState {
    fn default() -> (r: Self)
        ensures
            !r.current_frame_wants_focus,
            !r.previous_frame_wanted_focus,
    {
        EguiFocusState { current_frame_wants_focus: false, previous_frame_wanted_focus: false }
    }
}

impl EguiFocusState {
    /// The overlay holds focus only when it wanted it in this frame and the one
    /// before, which keeps focus from flickering at the overlay's edges.
    pub fn wants_focus(&self) -> (r: bool)
        ensures
            r == (self.previous_frame_wanted_focus && self.current_frame_wants_focus),
    {
        self.previous_frame_wanted_focus && self.current_frame_wants_focus
    }
}

/// True when the overlay wants focus in at least one of the windows.
pub open spec fn any_window_wants_focus(windows: Seq<EguiWindowInput>) -> bool {
    exists|i: int| 0 <= i < windows.len() && (#[trigger] windows[i]).wants_focus_spec()
}

/// Moves the focus state one frame on: this frame's wish becomes the previous
/// one, and the overlay wants focus now when it does so in any window.
pub fn check_egui_wants_focus(state: &EguiFocusState, windows: &Vec<EguiWindowInput>) -> (r:
    EguiFocusState)
    ensures
        r.previous_frame_wanted_focus == state.current_frame_wants_focus,
        r.current_frame_wants_focus == any_window_wants_focus(windows@),
{
    let mut wanted = false;
    let mut i: usize = 0;
    while i < windows.len()
        invariant
            i <= windows.len(),
            wanted == exists|j: int| 0 <= j < i && (#[trigger] windows@[j]).wants_focus_spec(),
        decreases windows.len() - i,
    {
        let w = windows[i];
        if w.wants_pointer_input || w.wants_keyboard_input || w.pointer_over_area {
            wanted = true;
        }
        i = i + 1;
    }
    EguiFocusState {
        current_frame_wants_focus: wanted,
        previous_frame_wanted_focus: state.current_frame_wants_focus,
    }
}

} // verus!
