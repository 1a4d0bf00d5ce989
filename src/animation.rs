use vstd::prelude::*;

use crate::error::LoadError;
use crate::state::BehavioralState;

verus! {

/// One decoded frame: an opaque image handle, how long it stays on screen,
/// and its intrinsic pixel size.
pub struct Frame<F> {
    pub image: F,
    pub duration_ms: u64,
    pub width: u32,
    pub height: u32,
}

/// The frame sequence of each behavioural state.
pub struct SpriteSet<F> {
    idle: Vec<Frame<F>>,
    running: Vec<Frame<F>>,
    click: Vec<Frame<F>>,
}

/// The first state, in the order `Idle`, `Running`, `Click`, whose sequence
/// would be empty.
pub open spec fn first_empty(idle: nat, running: nat, click: nat) -> Option<BehavioralState> {
    if idle == 0 {
        Some(BehavioralState::Idle)
    } else if running == 0 {
        Some(BehavioralState::Running)
    } else if click == 0 {
        Some(BehavioralState::Click)
    } else {
        None
    }
}

impl<F> SpriteSet<F> {
    /// The frames shown while in state `s`.
    pub closed spec fn sequence(&self, s: BehavioralState) -> Seq<Frame<F>> {
        match s {
            BehavioralState::Idle => self.idle@,
            BehavioralState::Running => self.running@,
            BehavioralState::Click => self.click@,
        }
    }

    /// Every state resolves to a non-empty sequence.
    pub open spec fn wf(&self) -> bool {
        &&& self.sequence(BehavioralState::Idle).len() > 0
        &&& self.sequence(BehavioralState::Running).len() > 0
        &&& self.sequence(BehavioralState::Click).len() > 0
    }

    /// Validates the three decoded sequences; fails on the first empty one.
    pub fn from_sequences(
        idle: Vec<Frame<F>>,
        running: Vec<Frame<F>>,
        click: Vec<Frame<F>>,
    ) -> (r: Result<SpriteSet<F>, LoadError>)
        ensures
            r is Err <==> first_empty(idle@.len(), running@.len(), click@.len()) is Some,
            r is Err ==> r->Err_0 == LoadError::EmptySequence(
                first_empty(idle@.len(), running@.len(), click@.len())->Some_0,
            ),
            r is Ok ==> {
                &&& r->Ok_0.wf()
                &&& r->Ok_0.sequence(BehavioralState::Idle) == idle@
                &&& r->Ok_0.sequence(BehavioralState::Running) == running@
                &&& r->Ok_0.sequence(BehavioralState::Click) == click@
            },
    {
        if idle.len() == 0 {
            Err(LoadError::EmptySequence(BehavioralState::Idle))
        } else if running.len() == 0 {
            Err(LoadError::EmptySequence(BehavioralState::Running))
        } else if click.len() == 0 {
            Err(LoadError::EmptySequence(BehavioralState::Click))
        } else {
            Ok(SpriteSet { idle, running, click })
        }
    }

    /// The frames of state `s`.
    pub fn sequence_of(&self, s: BehavioralState) -> (r: &Vec<Frame<F>>)
        ensures
            r@ == self.sequence(s),
    {
        match s {
            BehavioralState::Idle => &self.idle,
            BehavioralState::Running => &self.running,
            BehavioralState::Click => &self.click,
        }
    }

    /// Width and height of the first `Idle` frame, the character's intrinsic
    /// proportions.
    pub fn intrinsic_size(&self) -> (r: (u32, u32))
        requires
            self.wf(),
        ensures
            r.0 == self.sequence(BehavioralState::Idle)[0].width,
            r.1 == self.sequence(BehavioralState::Idle)[0].height,
    {
        let first = &self.idle[0];
        (first.width, first.height)
    }
}

/// Which state is playing, which of its frames is shown, and how long that
/// frame has been shown.
#[derive(Clone, Copy, Debug, PartialEq, Eq, Structural)]
pub struct AnimationCursor {
    pub state: BehavioralState,
    pub frame: usize,
    pub elapsed_ms: u64,
}

/// The cursor at the start of the sequence of `s`.
pub open spec fn start_of(s: BehavioralState) -> AnimationCursor {
    AnimationCursor { state: s, frame: 0, elapsed_ms: 0 }
}

/// The cursor after asking for state `s`: unchanged when `s` already plays,
/// else the start of `s`.
pub open spec fn switched(c: AnimationCursor, s: BehavioralState) -> AnimationCursor {
    if s == c.state {
        c
    } else {
        start_of(s)
    }
}

/// `a + b`, held at `u64::MAX`.
pub open spec fn saturating_sum(a: u64, b: u64) -> u64 {
    if a + b > u64::MAX {
        u64::MAX
    } else {
        (a + b) as u64
    }
}

/// The cursor after one tick of `dt` milliseconds over `frames`: once the
/// accumulated time exceeds the shown frame's duration, the next frame is shown
/// (wrapping to the first) and the accumulated time starts again from zero. At
/// most one frame is advanced per tick.
pub open spec fn advanced<F>(c: AnimationCursor, frames: Seq<Frame<F>>, dt: u64) -> AnimationCursor {
    let total = saturating_sum(c.elapsed_ms, dt);
    if total > frames[c.frame as int].duration_ms {
        AnimationCursor {
            state: c.state,
            frame: if c.frame + 1 >= frames.len() {
                0
            } else {
                (c.frame + 1) as usize
            },
            elapsed_ms: 0,
        }
    } else {
        AnimationCursor { state: c.state, frame: c.frame, elapsed_ms: total }
    }
}

/// The cursor after one tick for each entry of `dts`, in order.
pub open spec fn advanced_all<F>(
    c: AnimationCursor,
    frames: Seq<Frame<F>>,
    dts: Seq<u64>,
) -> AnimationCursor
    decreases dts.len(),
{
    if dts.len() == 0 {
        c
    } else {
        advanced_all(advanced(c, frames, dts[0]), frames, dts.drop_first())
    }
}

/// Asking twice in a row for the same state restarts nothing the second time.
pub proof fn switch_twice_is_switch_once(c: AnimationCursor, s: BehavioralState)
    ensures
        switched(switched(c, s), s) == switched(c, s),
{
}

/// Asking for a state other than the playing one always restarts at frame 0.
pub proof fn switch_to_other_restarts(c: AnimationCursor, s: BehavioralState)
    requires
        s != c.state,
    ensures
        switched(c, s).state == s,
        switched(c, s).frame == 0,
{
}

/// However many ticks pass, the shown frame stays within the sequence.
pub proof fn advance_stays_in_sequence<F>(c: AnimationCursor, frames: Seq<Frame<F>>, dts: Seq<u64>)
    requires
        c.frame < frames.len(),
    ensures
        advanced_all(c, frames, dts).frame < frames.len(),
        advanced_all(c, frames, dts).state == c.state,
    decreases dts.len(),
{
    if dts.len() > 0 {
        advance_stays_in_sequence(advanced(c, frames, dts[0]), frames, dts.drop_first());
    }
}

/// Owns the sprite set and the cursor into it.
pub struct AnimationDriver<F> {
    sprites: SpriteSet<F>,
    cursor: AnimationCursor,
}

impl<F> AnimationDriver<F> {
    pub closed spec fn spec_sprites(&self) -> SpriteSet<F> {
        self.sprites
    }

    pub closed spec fn spec_cursor(&self) -> AnimationCursor {
        self.cursor
    }

    /// The frames of the playing state.
    pub open spec fn playing(&self) -> Seq<Frame<F>> {
        self.spec_sprites().sequence(self.spec_cursor().state)
    }

    /// The image to display now.
    pub open spec fn shown_image(&self) -> F {
        self.playing()[self.spec_cursor().frame as int].image
    }

    /// A valid sprite set, and a cursor inside the playing sequence.
    pub open spec fn wf(&self) -> bool {
        &&& self.spec_sprites().wf()
        &&& self.spec_cursor().frame < self.playing().len()
    }

    /// A driver that starts on the first `Idle` frame.
    pub fn new(sprites: SpriteSet<F>) -> (r: AnimationDriver<F>)
        requires
            sprites.wf(),
        ensures
            r.wf(),
            r.spec_sprites() == sprites,
            r.spec_cursor() == start_of(BehavioralState::Idle),
    {
        AnimationDriver { sprites, cursor: AnimationCursor { state: BehavioralState::Idle, frame: 0, elapsed_ms: 0 } }
    }

    /// The playing state.
    pub fn state(&self) -> (r: BehavioralState)
        ensures
            r == self.spec_cursor().state,
    {
        self.cursor.state
    }

    /// The cursor: state, frame index and accumulated time.
    pub fn cursor(&self) -> (r: AnimationCursor)
        ensures
            r == self.spec_cursor(),
    {
        self.cursor
    }

    /// The sprite set in use.
    pub fn sprites(&self) -> (r: &SpriteSet<F>)
        ensures
            *r == self.spec_sprites(),
    {
        &self.sprites
    }

    /// The image to display for the playing state and frame.
    pub fn current_frame(&self) -> (r: &F)
        requires
            self.wf(),
        ensures
            *r == self.shown_image(),
    {
        let frames = self.sprites.sequence_of(self.cursor.state);
        &frames[self.cursor.frame].image
    }

    /// Intrinsic width and height of the first `Idle` frame.
    pub fn intrinsic_size(&self) -> (r: (u32, u32))
        requires
            self.wf(),
        ensures
            r.0 == self.spec_sprites().sequence(BehavioralState::Idle)[0].width,
            r.1 == self.spec_sprites().sequence(BehavioralState::Idle)[0].height,
    {
        self.sprites.intrinsic_size()
    }

    /// Plays `new_state` from its first frame, unless it already plays.
    pub fn switch_state(&mut self, new_state: BehavioralState)
        requires
            old(self).wf(),
        ensures
            final(self).wf(),
            final(self).spec_sprites() == old(self).spec_sprites(),
            final(self).spec_cursor() == switched(old(self).spec_cursor(), new_state),
            new_state == old(self).spec_cursor().state ==> final(self).spec_cursor()
                == old(self).spec_cursor(),
            new_state != old(self).spec_cursor().state ==> final(self).spec_cursor()
                == start_of(new_state),
    {
        if new_state != self.cursor.state {
            self.cursor = AnimationCursor { state: new_state, frame: 0, elapsed_ms: 0 };
        }
    }

    /// Adds `elapsed_ms` to the time the shown frame has been on screen and
    /// moves to the next frame once that frame's duration is exceeded.
    pub fn advance(&mut self, elapsed_ms: u64)
        requires
            old(self).wf(),
        ensures
            final(self).wf(),
            final(self).spec_sprites() == old(self).spec_sprites(),
            final(self).spec_cursor() == advanced(old(self).spec_cursor(), old(self).playing(), elapsed_ms),
    {
        let frames = self.sprites.sequence_of(self.cursor.state);
        assert(self.cursor.frame < frames@.len());
        let total: u64 = if elapsed_ms > u64::MAX - self.cursor.elapsed_ms {
            u64::MAX
        } else {
            self.cursor.elapsed_ms + elapsed_ms
        };
        if total > frames[self.cursor.frame].duration_ms {
            let next: usize = if self.cursor.frame >= frames.len() - 1 {
                0
            } else {
                self.cursor.frame + 1
            };
            self.cursor = AnimationCursor { state: self.cursor.state, frame: next, elapsed_ms: 0 };
        } else {
            self.cursor = AnimationCursor { state: self.cursor.state, frame: self.cursor.frame, elapsed_ms: total };
        }
    }

    /// Puts a validated sprite set in place; the playing state is kept and
    /// restarts from its first frame.
    pub fn replace_sprites(&mut self, sprites: SpriteSet<F>)
        requires
            sprites.wf(),
        ensures
            final(self).wf(),
            final(self).spec_sprites() == sprites,
            final(self).spec_cursor() == start_of(old(self).spec_cursor().state),
    {
        self.sprites = sprites;
        self.cursor = AnimationCursor { state: self.cursor.state, frame: 0, elapsed_ms: 0 };
    }

    /// Replaces the sprite set with the three decoded sequences, all or
    /// nothing: when one is empty the error names its state and the driver is
    /// left exactly as it was.
    pub fn load(
        &mut self,
        idle: Vec<Frame<F>>,
        running: Vec<Frame<F>>,
        click: Vec<Frame<F>>,
    ) -> (r: Result<(), LoadError>)
        requires
            old(self).wf(),
        ensures
            final(self).wf(),
            r is Err <==> first_empty(idle@.len(), running@.len(), click@.len()) is Some,
            r is Err ==> r->Err_0 == LoadError::EmptySequence(
                first_empty(idle@.len(), running@.len(), click@.len())->Some_0,
            ),
            r is Err ==> *final(self) == *old(self),
            r is Err ==> final(self).shown_image() == old(self).shown_image(),
            r is Ok ==> {
                &&& final(self).spec_sprites().sequence(BehavioralState::Idle) == idle@
                &&& final(self).spec_sprites().sequence(BehavioralState::Running) == running@
                &&& final(self).spec_sprites().sequence(BehavioralState::Click) == click@
                &&& final(self).spec_cursor() == start_of(old(self).spec_cursor().state)
            },
    {
        match SpriteSet::from_sequences(idle, running, click) {
            Ok(sprites) => {
                self.replace_sprites(sprites);
                Ok(())
            },
            Err(e) => Err(e),
        }
    }
}

} // verus!
