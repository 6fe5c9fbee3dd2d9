//! A free-look spectator camera controller.
//!
//! The library holds the controller's decisions: which camera and window a
//! frame acts on, the focus state machine, pointer capture, draining of pointer
//! motion and the movement intents read from the held keys.
use vstd::prelude::*;

pub mod controller;
pub mod egui_focus;
pub mod settings;

pub use controller::{
    held_move_intent, spectator_update, CursorGrab, CursorState, FrameDecision, FrameInput,
    FrameOutcome, HeldKeys, MoveIntent, WindowEntry,
};
pub use egui_focus::{check_egui_wants_focus, EguiFocusState, EguiWindowInput};
pub use settings::{spectator_init, AutoSelect, SpectatorSettings};

verus! {

} // verus!
