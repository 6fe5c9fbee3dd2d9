//! The per-frame update: resolving the camera and window, the focus state
//! machine, pointer capture, draining of pointer motion and movement intents.
//!
//! The numeric integration of orientation and position is the host's: the
//! update hands it the pointer motion to turn by, when the camera may turn, and
//! the direction of travel along each axis, when it may move.
use vstd::prelude::*;
use crate::settings::SpectatorSettings;

verus! {

/// The movement keys held this frame.
#[derive(Clone, Copy, Debug, PartialEq, Eq, Structural)]
pub struct HeldKeys {
    pub forward: bool,
    pub backward: bool,
    pub left: bool,
    pub right: bool,
    pub ascend: bool,
    pub descend: bool,
    /// The fast modifier: the alternate speed applies while it is held.
    pub fast: bool,
}

/// One frame's input, as the host sampled it.
#[derive(Clone, Copy, Debug, PartialEq, Eq, Structural)]
pub struct FrameInput {
    /// The release key went down this frame.
    pub release_just_pressed: bool,
    /// The capture button went down this frame.
    pub capture_just_pressed: bool,
    /// A UI overlay holds the pointer or keyboard; a capture click is then its own.
    pub ui_wants_focus: bool,
    pub held: HeldKeys,
}

/// A window the host knows of.
#[derive(Clone, Copy, Debug, PartialEq, Eq, Structural)]
pub struct WindowEntry {
    pub id: u64,
    pub primary: bool,
}

/// How the pointer is held by a window.
#[derive(Clone, Copy, Debug, PartialEq, Eq, Structural)]
pub enum CursorGrab {
    Free,
    Confined,
}

/// The pointer state to write to the target window.
#[derive(Clone, Copy, Debug, PartialEq, Eq, Structural)]
pub struct CursorState {
    pub grab: CursorGrab,
    pub visible: bool,
}

/// The direction of travel along each axis of the camera, each -1, 0 or 1,
/// and whether the alternate speed applies.
#[derive(Clone, Copy, Debug, PartialEq, Eq, Structural)]
pub struct MoveIntent {
    /// Along the camera's flattened forward axis.
    pub axial: i8,
    /// Along the camera's flattened right axis.
    pub lateral: i8,
    /// Along the world's up axis.
    pub vertical: i8,
    pub fast: bool,
}

/// What a frame does to an active camera and window.
#[derive(Clone, Copy, Debug, PartialEq, Eq)]
pub struct FrameDecision {
    /// The camera to move; the only entity the frame touches.
    pub camera: u64,
    /// The window whose pointer state is written.
    pub window: u64,
    /// The pointer state to write, when focus changed outside orthographic mode.
    pub cursor: Option<CursorState>,
    /// Whether the camera turns by this frame's pointer motion.
    pub rotate: bool,
    /// The translation to integrate over the elapsed time, when the camera moves.
    pub translation: Option<MoveIntent>,
}

/// How a frame went.
#[derive(Clone, Copy, Debug, PartialEq, Eq)]
pub enum FrameOutcome {
    /// No camera is active: nothing to do.
    Idle,
    /// The active camera no longer exists; the registry no longer names it.
    CameraMissing(u64),
    /// The active window no longer exists; the registry no longer names it.
    WindowMissing(u64),
    /// No window is active and none is primary: there is no surface to drive.
    NoPrimaryWindow,
    /// The camera and window were found.
    Active(FrameDecision),
}

/// -1, 0 or 1: the direction that a pair of opposing keys asks for.
pub open spec fn axis(pos: bool, neg: bool) -> i8 {
    if pos == neg {
        0
    } else if pos {
        1
    } else {
        -1i8
    }
}

/// The focus flag after this frame's edges: release wins over capture, and a
/// capture click that the overlay holds does nothing.
pub open spec fn focus_after(focus: bool, input: FrameInput) -> bool {
    if input.release_just_pressed {
        false
    } else if input.capture_just_pressed && !input.ui_wants_focus {
        true
    } else {
        focus
    }
}

/// Whether this frame's edges set the focus flag.
pub open spec fn focus_transition(input: FrameInput) -> bool {
    input.release_just_pressed || (input.capture_just_pressed && !input.ui_wants_focus)
}

/// The pointer is confined and hidden while focused, free and shown otherwise.
pub open spec fn cursor_for(focused: bool) -> CursorState {
    CursorState {
        grab: if focused {
            CursorGrab::Confined
        } else {
            CursorGrab::Free
        },
        visible: !focused,
    }
}

/// The movement asked for by the held keys. Orthographic mode has no depth
/// axis: forward and backward move up and down instead.
pub open spec fn move_intent(held: HeldKeys, orthographic: bool) -> MoveIntent {
    MoveIntent {
        axial: if orthographic {
            0
        } else {
            axis(held.forward, held.backward)
        },
        lateral: axis(held.right, held.left),
        vertical: if orthographic {
            axis(held.forward, held.backward)
        } else {
            axis(held.ascend, held.descend)
        },
        fast: held.fast,
    }
}

/// What a frame does once its camera and window are known. Orthographic mode
/// is always live and never turns or grabs the pointer.
pub open spec fn decide(
    camera: u64,
    window: u64,
    orthographic: bool,
    focus: bool,
    input: FrameInput,
) -> FrameDecision {
    let focused = focus_after(focus, input);
    FrameDecision {
        camera,
        window,
        cursor: if !orthographic && focus_transition(input) {
            Some(cursor_for(focused))
        } else {
            None
        },
        rotate: focused && !orthographic,
        translation: if focused || orthographic {
            Some(move_intent(input.held, orthographic))
        } else {
            None
        },
    }
}

pub open spec fn has_window(windows: Seq<WindowEntry>, id: u64) -> bool {
    exists|i: int| 0 <= i < windows.len() && (#[trigger] windows[i]).id == id
}

/// The first window flagged primary.
pub open spec fn primary_window(windows: Seq<WindowEntry>) -> Option<u64>
    decreases windows.len(),
{
    if windows.len() == 0 {
        None
    } else if windows[0].primary {
        Some(windows[0].id)
    } else {
        primary_window(windows.drop_first())
    }
}

/// The outcome of a frame, from the registry, the focus flag, the input and
/// the cameras and windows that exist.
pub open spec fn frame_outcome<S>(
    settings: SpectatorSettings<S>,
    focus: bool,
    input: FrameInput,
    cameras: Seq<u64>,
    windows: Seq<WindowEntry>,
) -> FrameOutcome {
    match settings.active_spectator {
        None => FrameOutcome::Idle,
        Some(c) => if !cameras.contains(c) {
            FrameOutcome::CameraMissing(c)
        } else {
            match settings.active_window {
                Some(w) => if has_window(windows, w) {
                    FrameOutcome::Active(decide(c, w, settings.orthographic, focus, input))
                } else {
                    FrameOutcome::WindowMissing(w)
                },
                None => match primary_window(windows) {
                    Some(w) => FrameOutcome::Active(
                        decide(c, w, settings.orthographic, focus, input),
                    ),
                    None => FrameOutcome::NoPrimaryWindow,
                },
            }
        },
    }
}

/// Everything a frame leaves behind.
pub struct FrameModel<S, M> {
    pub settings: SpectatorSettings<S>,
    pub focus: bool,
    pub outcome: FrameOutcome,
    /// The pointer motion that the camera turns by.
    pub rotation: Seq<M>,
    /// The pointer motion left for the next frame.
    pub pending: Seq<M>,
}

/// One frame of the controller. A dangling camera or window reference is
/// dropped from the registry; the focus flag moves only when the frame is
/// active; the pointer motion is always drained, and only turns the camera
/// when the decision says so.
pub open spec fn frame<S, M>(
    settings: SpectatorSettings<S>,
    focus: bool,
    input: FrameInput,
    motion: Seq<M>,
    cameras: Seq<u64>,
    windows: Seq<WindowEntry>,
) -> FrameModel<S, M> {
    let outcome = frame_outcome(settings, focus, input, cameras, windows);
    FrameModel {
        settings: match outcome {
            FrameOutcome::CameraMissing(_) => SpectatorSettings { active_spectator: None, ..settings },
            FrameOutcome::WindowMissing(_) => SpectatorSettings { active_window: None, ..settings },
            _ => settings,
        },
        focus: match outcome {
            FrameOutcome::Active(_) => focus_after(focus, input),
            _ => focus,
        },
        outcome,
        rotation: match outcome {
            FrameOutcome::Active(d) => if d.rotate {
                motion
            } else {
                seq![]
            },
            _ => seq![],
        },
        pending: seq![],
    }
}

fn axis_of(pos: bool, neg: bool) -> (r: i8)
    ensures
        r == axis(pos, neg),
{
    if pos == neg {
        0
    } else if pos {
        1
    } else {
        -1
    }
}

/// The movement asked for by the held keys.
pub fn held_move_intent(held: &HeldKeys, orthographic: bool) -> (r: MoveIntent)
    ensures
        r == move_intent(*held, orthographic),
{
    let along = axis_of(held.forward, held.backward);
    MoveIntent {
        axial: if orthographic {
            0
        } else {
            along
        },
        lateral: axis_of(held.right, held.left),
        vertical: if orthographic {
            along
        } else {
            axis_of(held.ascend, held.descend)
        },
        fast: held.fast,
    }
}

/// Applies this frame's edges to the focus flag and decides what the frame
/// does to the camera and the window.
fn decide_frame(camera: u64, window: u64, orthographic: bool, focus: &mut bool, input: &FrameInput) -> (r:
    FrameDecision)
    ensures
        r == decide(camera, window, orthographic, *old(focus), *input),
        *final(focus) == focus_after(*old(focus), *input),
{
    let mut cursor = None;
    if input.release_just_pressed {
        *focus = false;
        if !orthographic {
            cursor = Some(CursorState { grab: CursorGrab::Free, visible: true });
        }
    } else if input.capture_just_pressed && !input.ui_wants_focus {
        *focus = true;
        if !orthographic {
            cursor = Some(CursorState { grab: CursorGrab::Confined, visible: false });
        }
    }
    let live = *focus || orthographic;
    FrameDecision {
        camera,
        window,
        cursor,
        rotate: *focus && !orthographic,
        translation: if live {
            Some(held_move_intent(&input.held, orthographic))
        } else {
            None
        },
    }
}

fn has_camera(cameras: &Vec<u64>, id: u64) -> (r: bool)
    ensures
        r == cameras@.contains(id),
{
    let mut i: usize = 0;
    while i < cameras.len()
        invariant
            i <= cameras.len(),
            forall|j: int| 0 <= j < i ==> cameras@[j] != id,
        decreases cameras.len() - i,
    {
        if cameras[i] == id {
            return true;
        }
        i = i + 1;
    }
    false
}

fn find_window(windows: &Vec<WindowEntry>, id: u64) -> (r: bool)
    ensures
        r == has_window(windows@, id),
{
    let mut i: usize = 0;
    while i < windows.len()
        invariant
            i <= windows.len(),
            forall|j: int| 0 <= j < i ==> (#[trigger] windows@[j]).id != id,
        decreases windows.len() - i,
    {
        if windows[i].id == id {
            return true;
        }
        i = i + 1;
    }
    false
}

fn find_primary_window(windows: &Vec<WindowEntry>) -> (r: Option<u64>)
    ensures
        r == primary_window(windows@),
{
    let mut i: usize = 0;
    assert(windows@.subrange(0, windows@.len() as int) =~= windows@);
    while i < windows.len()
        invariant
            i <= windows.len(),
            primary_window(windows@.subrange(i as int, windows@.len() as int)) == primary_window(
                windows@,
            ),
        decreases windows.len() - i,
    {
        let rest = Ghost(windows@.subrange(i as int, windows@.len() as int));
        assert(rest@[0] == windows@[i as int]);
        if windows[i].primary {
            return Some(windows[i].id);
        }
        assert(rest@.drop_first() =~= windows@.subrange(i + 1, windows@.len() as int));
        i = i + 1;
    }
    assert(windows@.subrange(i as int, windows@.len() as int) =~= Seq::<WindowEntry>::empty());
    None
}

/// Runs one frame of the controller against the registry, the focus flag, the
/// pointer motion gathered since the last frame, and the cameras and windows
/// that exist. Returns how the frame went, with the pointer motion that the
/// camera turns by; the gathered motion is always drained.
pub fn spectator_update<S, M>(
    settings: &mut SpectatorSettings<S>,
    focus: &mut bool,
    input: &FrameInput,
    motion: &mut Vec<M>,
    cameras: &Vec<u64>,
    windows: &Vec<WindowEntry>,
) -> (r: (FrameOutcome, Vec<M>))
    ensures
        frame(*old(settings), *old(focus), *input, old(motion)@, cameras@, windows@) == (FrameModel {
            settings: *final(settings),
            focus: *final(focus),
            outcome: r.0,
            rotation: r.1@,
            pending: final(motion)@,
        }),
{
    let camera = match settings.active_spectator {
        None => {
            motion.clear();
            return (FrameOutcome::Idle, Vec::new());
        },
        Some(c) => c,
    };
    if !has_camera(cameras, camera) {
        settings.active_spectator = None;
        motion.clear();
        return (FrameOutcome::CameraMissing(camera), Vec::new());
    }
    let window = match settings.active_window {
        Some(w) => {
            if !find_window(windows, w) {
                settings.active_window = None;
                motion.clear();
                return (FrameOutcome::WindowMissing(w), Vec::new());
            }
            w
        },
        None => match find_primary_window(windows) {
            Some(w) => w,
            None => {
                motion.clear();
                return (FrameOutcome::NoPrimaryWindow, Vec::new());
            },
        },
    };
    let decision = decide_frame(camera, window, settings.orthographic, focus, input);
    let mut rotation = Vec::new();
    if decision.rotate {
        core::mem::swap(motion, &mut rotation);
    } else {
        motion.clear();
    }
    (FrameOutcome::Active(decision), rotation)
}

/// With no key or button pressed or held and no pointer motion, a frame
/// neither turns nor moves the camera, and leaves focus and pointer alone.
pub proof fn idle_input_requests_no_motion<S, M>(
    settings: SpectatorSettings<S>,
    focus: bool,
    input: FrameInput,
    motion: Seq<M>,
    cameras: Seq<u64>,
    windows: Seq<WindowEntry>,
)
    requires
        !input.release_just_pressed,
        !input.capture_just_pressed,
        input.held == (HeldKeys {
            forward: false,
            backward: false,
            left: false,
            right: false,
            ascend: false,
            descend: false,
            fast: false,
        }),
        motion.len() == 0,
    ensures
        ({
            let m = frame(settings, focus, input, motion, cameras, windows);
            &&& m.focus == focus
            &&& m.rotation.len() == 0
            &&& m.outcome matches FrameOutcome::Active(d) ==> {
                &&& d.cursor is None
                &&& d.translation matches Some(t) ==> t.axial == 0 && t.lateral == 0
                    && t.vertical == 0
            }
        }),
{
}

/// Pointer motion never outlives its frame: after any frame nothing is left
/// pending, so a following frame with no new motion turns the camera exactly
/// as a frame given no motion does, which is not at all.
pub proof fn motion_never_carries_over<S, M>(
    settings: SpectatorSettings<S>,
    focus: bool,
    first: FrameInput,
    motion: Seq<M>,
    second: FrameInput,
    cameras: Seq<u64>,
    windows: Seq<WindowEntry>,
)
    ensures
        ({
            let m1 = frame(settings, focus, first, motion, cameras, windows);
            let m2 = frame(m1.settings, m1.focus, second, m1.pending, cameras, windows);
            let still = frame(m1.settings, m1.focus, second, Seq::<M>::empty(), cameras, windows);
            &&& m1.pending.len() == 0
            &&& m2.rotation == still.rotation
            &&& m2.rotation.len() == 0
        }),
{
}

/// The release key always drops focus, even with the capture button pressed in
/// the same frame; outside orthographic mode it frees and shows the pointer.
pub proof fn release_key_drops_focus<S, M>(
    settings: SpectatorSettings<S>,
    focus: bool,
    input: FrameInput,
    motion: Seq<M>,
    cameras: Seq<u64>,
    windows: Seq<WindowEntry>,
)
    requires
        input.release_just_pressed,
    ensures
        ({
            let m = frame(settings, focus, input, motion, cameras, windows);
            m.outcome matches FrameOutcome::Active(d) ==> {
                &&& !m.focus
                &&& !d.rotate
                &&& d.cursor == if settings.orthographic {
                    None
                } else {
                    Some(CursorState { grab: CursorGrab::Free, visible: true })
                }
            }
        }),
{
}

/// In orthographic mode the camera never turns and the pointer is never
/// grabbed or hidden, whatever the focus and the pointer motion; the mode
/// itself survives every frame.
pub proof fn orthographic_never_turns_or_grabs<S, M>(
    settings: SpectatorSettings<S>,
    focus: bool,
    input: FrameInput,
    motion: Seq<M>,
    cameras: Seq<u64>,
    windows: Seq<WindowEntry>,
)
    requires
        settings.orthographic,
    ensures
        ({
            let m = frame(settings, focus, input, motion, cameras, windows);
            &&& m.settings.orthographic
            &&& m.rotation.len() == 0
            &&& m.outcome matches FrameOutcome::Active(d) ==> !d.rotate && d.cursor is None
        }),
{
}

} // verus!
