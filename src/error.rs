use vstd::prelude::*;

use crate::state::BehavioralState;

verus! {

/// Why a sprite set could not be assembled.
#[derive(Clone, Copy, Debug, PartialEq, Eq, Structural)]
pub enum LoadError {
    /// The sequence of the given state holds no frame.
    EmptySequence(BehavioralState),
}

/// The failures of the character as a whole.
#[derive(Clone, Copy, Debug, PartialEq, Eq, Structural)]
pub enum BuddyError {
    /// The sprite source is missing, malformed or empty for a required state.
    LoadFailure(LoadError),
    /// The presentation layer could not report the screen geometry.
    NoScreenResolution,
    /// The starting rectangle does not fit on the screen:
    /// `(x, y, screen_width, screen_height, width, height)`.
    CoordinatesOutOfBounds(i32, i32, i32, i32, u32, u32),
    /// The reload signal handler could not be installed.
    SignalRegistrationFailure,
}

} // verus!
