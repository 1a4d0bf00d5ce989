use vstd::prelude::*;

use crate::animation::{switched, AnimationDriver};
use crate::state::{toggled_spec, BehavioralState};

verus! {

/// The state that a click leads to, given a draw in `0..=100` and the
/// click-reaction threshold: a reaction never interrupts itself, an idle
/// character reacts when the draw is at most the threshold and starts running
/// otherwise, a running character stops.
pub open spec fn click_transition(s: BehavioralState, draw: u8, threshold: u8) -> BehavioralState {
    match s {
        BehavioralState::Click => BehavioralState::Click,
        BehavioralState::Idle => if draw <= threshold {
            BehavioralState::Click
        } else {
            toggled_spec(s)
        },
        BehavioralState::Running => toggled_spec(s),
    }
}

/// The state that a click leads to from `state` with the random `draw`.
pub fn next_state_on_click(state: BehavioralState, draw: u8, threshold: u8) -> (r: BehavioralState)
    ensures
        r == click_transition(state, draw, threshold),
{
    match state {
        BehavioralState::Click => BehavioralState::Click,
        BehavioralState::Idle => if draw <= threshold {
            BehavioralState::Click
        } else {
            state.toggled()
        },
        BehavioralState::Running => state.toggled(),
    }
}

/// Relies on fastrand::u8 over the inclusive range `0..=100`: a draw that lies
/// in that range (the range is not empty, so the call does not panic).
#[verifier::external_body]
fn random_percent() -> (r: u8)
    ensures
        r <= 100,
{
    fastrand::u8(0..=100)
}

/// Reacts to a click on the character. Only an idle character draws a random
/// number; the new state is played from its first frame unless it already plays.
pub fn handle_click<F>(driver: &mut AnimationDriver<F>, threshold: u8)
    requires
        old(driver).wf(),
    ensures
        final(driver).wf(),
        final(driver).spec_sprites() == old(driver).spec_sprites(),
        exists|draw: u8|
            draw <= 100 && final(driver).spec_cursor() == switched(
                old(driver).spec_cursor(),
                #[trigger] click_transition(old(driver).spec_cursor().state, draw, threshold),
            ),
        old(driver).spec_cursor().state == BehavioralState::Click ==> *final(driver) == *old(driver),
        old(driver).spec_cursor().state == BehavioralState::Running ==> final(driver).spec_cursor()
            == switched(old(driver).spec_cursor(), BehavioralState::Idle),
        old(driver).spec_cursor().state == BehavioralState::Idle ==> {
            ||| final(driver).spec_cursor() == switched(old(driver).spec_cursor(), BehavioralState::Click)
            ||| final(driver).spec_cursor() == switched(old(driver).spec_cursor(), BehavioralState::Running)
        },
        old(driver).spec_cursor().state == BehavioralState::Idle && threshold >= 100
            ==> final(driver).spec_cursor() == switched(old(driver).spec_cursor(), BehavioralState::Click),
{
    let state = driver.state();
    if state != BehavioralState::Click {
        let draw: u8 = if state == BehavioralState::Idle {
            random_percent()
        } else {
            0
        };
        let next = next_state_on_click(state, draw, threshold);
        driver.switch_state(next);
        assert(click_transition(state, draw, threshold) == next);
    } else {
        assert(click_transition(state, 0, threshold) == state);
    }
}

} // verus!
