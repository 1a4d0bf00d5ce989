use buddy::animation::{AnimationCursor, AnimationDriver, Frame, SpriteSet};
use buddy::click::{handle_click, next_state_on_click};
use buddy::error::{BuddyError, LoadError};
use buddy::geometry::{check_placement, infer_size, input_region, Rect, SizeConfig};
use buddy::movement::{movement_tick, next_x, Placement};
use buddy::reload::ReloadTrigger;
use buddy::state::BehavioralState;

fn frames(names: &[&'static str], duration_ms: u64) -> Vec<Frame<&'static str>> {
    names
        .iter()
        .map(|n| Frame { image: *n, duration_ms, width: 40, height: 20 })
        .collect()
}

fn driver() -> AnimationDriver<&'static str> {
    let set = SpriteSet::from_sequences(
        frames(&["i0", "i1", "i2"], 100),
        frames(&["r0", "r1"], 50),
        frames(&["c0", "c1", "c2", "c3"], 80),
    )
    .unwrap();
    AnimationDriver::new(set)
}

#[test]
fn toggled_pairs_motion_states() {
    assert_eq!(BehavioralState::Idle.toggled(), BehavioralState::Running);
    assert_eq!(BehavioralState::Running.toggled(), BehavioralState::Idle);
    assert_eq!(BehavioralState::Click.toggled(), BehavioralState::Click);
}

#[test]
fn driver_starts_idle_on_first_frame() {
    let d = driver();
    assert_eq!(d.state(), BehavioralState::Idle);
    assert_eq!(*d.current_frame(), "i0");
    assert_eq!(d.intrinsic_size(), (40, 20));
}

#[test]
fn switch_same_state_twice_keeps_cursor() {
    let mut d = driver();
    d.advance(150);
    d.advance(30);
    let before = d.cursor();
    assert_eq!(before, AnimationCursor { state: BehavioralState::Idle, frame: 1, elapsed_ms: 30 });
    d.switch_state(BehavioralState::Idle);
    d.switch_state(BehavioralState::Idle);
    assert_eq!(d.cursor(), before);

    d.switch_state(BehavioralState::Running);
    d.advance(60);
    let running = d.cursor();
    d.switch_state(BehavioralState::Running);
    assert_eq!(d.cursor(), running);
    assert_eq!(*d.current_frame(), "r1");
}

#[test]
fn switch_other_state_resets_frame() {
    let mut d = driver();
    d.advance(101);
    d.advance(101);
    assert_eq!(d.cursor().frame, 2);
    d.switch_state(BehavioralState::Click);
    assert_eq!(d.cursor(), AnimationCursor { state: BehavioralState::Click, frame: 0, elapsed_ms: 0 });
    assert_eq!(*d.current_frame(), "c0");
}

#[test]
fn advance_accumulates_until_duration_exceeded() {
    let mut d = driver();
    d.advance(60);
    assert_eq!(*d.current_frame(), "i0");
    d.advance(40);
    assert_eq!(d.cursor().elapsed_ms, 100);
    assert_eq!(*d.current_frame(), "i0");
    d.advance(1);
    assert_eq!(*d.current_frame(), "i1");
    assert_eq!(d.cursor().elapsed_ms, 0);
}

#[test]
fn advance_moves_one_frame_per_tick_at_most() {
    let mut d = driver();
    d.advance(10_000);
    assert_eq!(d.cursor().frame, 1);
    d.advance(u64::MAX);
    d.advance(u64::MAX);
    assert_eq!(d.cursor().frame, 0);
}

#[test]
fn advance_wraps_and_stays_in_range() {
    let mut d = driver();
    d.switch_state(BehavioralState::Click);
    let mut seen = Vec::new();
    for i in 0..50u64 {
        d.advance(i * 37 % 200);
        let frame = d.cursor().frame;
        assert!(frame < 4);
        seen.push(frame);
    }
    assert!(seen.contains(&0) && seen.contains(&3));
}

#[test]
fn empty_sequence_is_rejected_in_order() {
    let r = SpriteSet::from_sequences(frames(&[], 10), frames(&[], 10), frames(&[], 10));
    assert_eq!(r.err(), Some(LoadError::EmptySequence(BehavioralState::Idle)));
    let r = SpriteSet::from_sequences(frames(&["a"], 10), frames(&[], 10), frames(&[], 10));
    assert_eq!(r.err(), Some(LoadError::EmptySequence(BehavioralState::Running)));
    let r = SpriteSet::from_sequences(frames(&["a"], 10), frames(&["b"], 10), frames(&[], 10));
    assert_eq!(r.err(), Some(LoadError::EmptySequence(BehavioralState::Click)));
}

#[test]
fn failed_reload_keeps_current_frame() {
    let mut d = driver();
    d.switch_state(BehavioralState::Running);
    d.advance(51);
    let before = *d.current_frame();
    let cursor = d.cursor();
    let r = d.load(frames(&["x0"], 10), frames(&[], 10), frames(&["y0"], 10));
    assert_eq!(r, Err(LoadError::EmptySequence(BehavioralState::Running)));
    assert_eq!(*d.current_frame(), before);
    assert_eq!(d.cursor(), cursor);
}

#[test]
fn successful_reload_replaces_frames_and_keeps_state() {
    let mut d = driver();
    d.switch_state(BehavioralState::Running);
    d.advance(51);
    let r = d.load(frames(&["n0"], 10), frames(&["m0", "m1"], 10), frames(&["k0"], 10));
    assert_eq!(r, Ok(()));
    assert_eq!(d.state(), BehavioralState::Running);
    assert_eq!(*d.current_frame(), "m0");
    assert_eq!(d.sprites().sequence_of(BehavioralState::Idle).len(), 1);
}

#[test]
fn movement_wraps_left_edge() {
    assert_eq!(next_x(-45, 50, 1000, true), 1000);
    assert_eq!(next_x(100, 50, 1000, true), 90);
    assert_eq!(next_x(-40, 50, 1000, true), 1000);
    assert_eq!(next_x(-39, 50, 1000, true), -49);
}

#[test]
fn movement_wraps_right_edge() {
    assert_eq!(next_x(995, 50, 1000, false), -50);
    assert_eq!(next_x(100, 50, 1000, false), 110);
    assert_eq!(next_x(990, 50, 1000, false), -50);
    assert_eq!(next_x(989, 50, 1000, false), 999);
}

#[test]
fn movement_only_while_running() {
    assert_eq!(movement_tick(BehavioralState::Idle, 100, 50, 1000, true), None);
    assert_eq!(movement_tick(BehavioralState::Click, 100, 50, 1000, true), None);
    assert_eq!(movement_tick(BehavioralState::Running, 100, 50, 1000, true), Some(90));
}

#[test]
fn placement_tick_moves_and_updates_region() {
    let mut p = Placement { width: 50, height: 30, x: -45, y: 7, left: true };
    assert_eq!(p.tick(BehavioralState::Idle, 1000), None);
    assert_eq!(p.x, -45);
    let region = p.tick(BehavioralState::Running, 1000);
    assert_eq!(p.x, 1000);
    assert_eq!(p.y, 7);
    assert_eq!(region, Some(Rect { x: 1000, y: 0, width: 50, height: 30 }));
}

#[test]
fn click_table() {
    assert_eq!(next_state_on_click(BehavioralState::Idle, 20, 30), BehavioralState::Click);
    assert_eq!(next_state_on_click(BehavioralState::Idle, 30, 30), BehavioralState::Click);
    assert_eq!(next_state_on_click(BehavioralState::Idle, 75, 30), BehavioralState::Running);
    for draw in 0..=100u8 {
        assert_eq!(next_state_on_click(BehavioralState::Running, draw, 30), BehavioralState::Idle);
        assert_eq!(next_state_on_click(BehavioralState::Click, draw, 30), BehavioralState::Click);
    }
}

#[test]
fn click_on_running_stops_and_on_click_is_ignored() {
    let mut d = driver();
    d.switch_state(BehavioralState::Running);
    handle_click(&mut d, 30);
    assert_eq!(d.state(), BehavioralState::Idle);

    d.switch_state(BehavioralState::Click);
    d.advance(81);
    let cursor = d.cursor();
    handle_click(&mut d, 100);
    assert_eq!(d.cursor(), cursor);
}

#[test]
fn click_on_idle_draws_at_random() {
    let mut d = driver();
    handle_click(&mut d, 100);
    assert_eq!(d.state(), BehavioralState::Click);

    let mut reactions = 0;
    let mut runs = 0;
    for _ in 0..500 {
        let mut d = driver();
        handle_click(&mut d, 50);
        match d.state() {
            BehavioralState::Click => reactions += 1,
            BehavioralState::Running => runs += 1,
            BehavioralState::Idle => panic!("an idle click must change the state"),
        }
    }
    assert!(reactions > 0 && runs > 0);
}

#[test]
fn reload_request_consumed_once() {
    let mut t = ReloadTrigger::new();
    assert!(!t.tick(false));
    t.request();
    t.request();
    assert!(t.is_pending());
    assert!(t.tick(false));
    assert!(!t.is_pending());
    assert!(!t.tick(false));
}

#[test]
fn automatic_reload_every_tick() {
    let mut t = ReloadTrigger::new();
    assert!(t.tick(true));
    assert!(t.tick(true));
    t.request();
    assert!(t.tick(true));
    assert!(t.is_pending());
}

#[test]
fn out_of_bounds_placement() {
    assert_eq!(
        check_placement(960, 0, 50, 40, 1000, 800, false),
        Err(BuddyError::CoordinatesOutOfBounds(960, 0, 1000, 800, 50, 40))
    );
    assert_eq!(check_placement(960, 0, 50, 40, 1000, 800, true), Ok(()));
    assert_eq!(check_placement(950, 0, 50, 40, 1000, 800, false).is_err(), true);
    assert_eq!(check_placement(949, 0, 50, 40, 1000, 800, false), Ok(()));
    assert!(check_placement(-1, 0, 50, 40, 1000, 800, false).is_err());
    assert!(check_placement(0, -1, 50, 40, 1000, 800, false).is_err());
    assert!(check_placement(0, 760, 50, 40, 1000, 800, false).is_err());
}

#[test]
fn size_from_config_and_aspect() {
    let both = SizeConfig { width: Some(70), height: Some(90), default_height: 10, max_size: 500 };
    assert_eq!(infer_size(&both, 3, 2), (70, 90));
    let width_only = SizeConfig { width: Some(150), height: None, default_height: 10, max_size: 500 };
    assert_eq!(infer_size(&width_only, 3, 2), (150, 100));
    let height_only = SizeConfig { width: None, height: Some(100), default_height: 10, max_size: 500 };
    assert_eq!(infer_size(&height_only, 3, 2), (150, 100));
    let neither = SizeConfig { width: None, height: None, default_height: 64, max_size: 500 };
    assert_eq!(infer_size(&neither, 40, 20), (128, 64));
    let bounded = SizeConfig { width: None, height: Some(400), default_height: 10, max_size: 500 };
    assert_eq!(infer_size(&bounded, 4, 1), (500, 400));
    assert_eq!(infer_size(&height_only, 0, 2), (100, 100));
}

#[test]
fn input_region_is_character_rectangle() {
    assert_eq!(input_region(12, 0, 50, 30), Rect { x: 12, y: 0, width: 50, height: 30 });
}
