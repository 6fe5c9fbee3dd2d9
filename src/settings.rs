//! The registry: which camera and window the controller drives, and its tuning.
use vstd::prelude::*;

verus! {

/// Which camera the controller drives, which window grabs the pointer, and the
/// tuning of the motion. Entities and windows are named by their identifiers.
///
/// The tuning values are of the host's number type `S`; the library only
/// chooses among them and never computes with them.
pub struct SpectatorSettings<S> {
    /// The camera that receives motion; `None` disables the controller.
    pub active_spectator: Option<u64>,
    /// The window whose pointer is grabbed; `None` means the primary window.
    pub active_window: Option<u64>,
    /// Units per second at normal speed.
    pub base_speed: S,
    /// Units per second while the fast modifier is held.
    pub alt_speed: S,
    /// Rotation per unit of pointer motion.
    pub sensitivity: S,
    /// The control scheme for two-dimensional views: no pointer capture, no
    /// rotation, and the forward and backward keys move vertically.
    pub orthographic: bool,
}

/// What the start-up selection of a camera found.
#[derive(Clone, Copy, Debug, PartialEq, Eq, Structural)]
pub enum AutoSelect {
    /// A camera was already chosen; nothing was scanned.
    AlreadySet,
    /// Exactly one candidate existed and is now the active camera.
    Selected(u64),
    /// No candidate exists; the active camera stays unset.
    NoSpectator,
    /// More than one candidate exists; the active camera stays unset.
    MultipleSpectators,
}

impl<S> SpectatorSettings<S> {
    /// The speed for this frame: the alternate one while the fast modifier is held.
    pub fn speed(&self, fast: bool) -> (r: &S)
        ensures
            *r == if fast { self.alt_speed } else { self.base_speed },
    {
        if fast {
            &self.alt_speed
        } else {
            &self.base_speed
        }
    }
}

/// The result of selecting a camera among the marked candidates.
pub open spec fn auto_select_outcome(active: Option<u64>, candidates: Seq<u64>) -> AutoSelect {
    if active is Some {
        AutoSelect::AlreadySet
    } else if candidates.len() == 1 {
        AutoSelect::Selected(candidates[0])
    } else if candidates.len() == 0 {
        AutoSelect::NoSpectator
    } else {
        AutoSelect::MultipleSpectators
    }
}

/// Selects the active camera at start-up: the only marked candidate, if there
/// is exactly one and no camera was chosen before. A chosen camera is never
/// replaced.
pub fn spectator_init<S>(settings: &mut SpectatorSettings<S>, candidates: &Vec<u64>) -> (r:
    AutoSelect)
    ensures
        r == auto_select_outcome(old(settings).active_spectator, candidates@),
        final(settings).active_spectator == match r {
            AutoSelect::Selected(c) => Some(c),
            _ => old(settings).active_spectator,
        },
        final(settings).active_window == old(settings).active_window,
        final(settings).base_speed == old(settings).base_speed,
        final(settings).alt_speed == old(settings).alt_speed,
        final(settings).sensitivity == old(settings).sensitivity,
        final(settings).orthographic == old(settings).orthographic,
{
    if settings.active_spectator.is_some() {
        AutoSelect::AlreadySet
    } else if candidates.len() == 1 {
        settings.active_spectator = Some(candidates[0]);
        AutoSelect::Selected(candidates[0])
    } else if candidates.len() == 0 {
        AutoSelect::NoSpectator
    } else {
        AutoSelect::MultipleSpectators
    }
}

} // verus!
