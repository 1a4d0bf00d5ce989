use vstd::prelude::*;

verus! {

/// The behavioural mode of the character; it decides which animation plays
/// and whether the character walks.
#[derive(Clone, Copy, Debug, PartialEq, Eq, Structural)]
pub enum BehavioralState {
    Idle,
    Running,
    Click,
}

/// The paired motion state: `Idle` and `Running` swap, `Click` has no pair
/// and stays as it is.
pub open spec fn toggled_spec(s: BehavioralState) -> BehavioralState {
    match s {
        BehavioralState::Idle => BehavioralState::Running,
        BehavioralState::Running => BehavioralState::Idle,
        BehavioralState::Click => BehavioralState::Click,
    }
}

impl BehavioralState {
    /// The opposite motion state (`Idle` <-> `Running`); `Click` is returned unchanged.
    pub fn toggled(self) -> (r: BehavioralState)
        ensures
            r == toggled_spec(self),
    {
        match self {
            BehavioralState::Idle => BehavioralState::Running,
            BehavioralState::Running => BehavioralState::Idle,
            BehavioralState::Click => BehavioralState::Click,
        }
    }
}

} // verus!
