use vstd::prelude::*;

verus! {

/// Whether a sprite reload has been asked for and not yet acted on.
#[derive(Clone, Copy, Debug, PartialEq, Eq, Structural)]
pub struct ReloadTrigger {
    pub pending: bool,
}

/// The trigger after a reload request.
pub open spec fn after_request(t: ReloadTrigger) -> ReloadTrigger {
    ReloadTrigger { pending: true }
}

/// Whether a reload tick attempts a reload: always in automatic mode, else
/// exactly when one is pending.
pub open spec fn tick_reloads(t: ReloadTrigger, automatic: bool) -> bool {
    automatic || t.pending
}

/// The trigger after a reload tick: outside automatic mode the request is
/// consumed; in automatic mode it is not looked at.
pub open spec fn after_tick(t: ReloadTrigger, automatic: bool) -> ReloadTrigger {
    ReloadTrigger { pending: t.pending && automatic }
}

impl ReloadTrigger {
    /// A trigger with nothing pending.
    pub fn new() -> (r: ReloadTrigger)
        ensures
            !r.pending,
    {
        ReloadTrigger { pending: false }
    }

    /// Asks for a reload at the next tick; asking again before then changes nothing.
    pub fn request(&mut self)
        ensures
            *final(self) == after_request(*old(self)),
    {
        self.pending = true;
    }

    /// Whether a reload is pending.
    pub fn is_pending(&self) -> (r: bool)
        ensures
            r == self.pending,
    {
        self.pending
    }

    /// One reload tick: says whether to attempt a reload now, and consumes the
    /// pending request when it was the reason.
    pub fn tick(&mut self, automatic: bool) -> (r: bool)
        ensures
            r == tick_reloads(*old(self), automatic),
            *final(self) == after_tick(*old(self), automatic),
    {
        if automatic {
            true
        } else {
            let was = self.pending;
            self.pending = false;
            was
        }
    }
}

/// However many requests arrive before a tick, outside automatic mode that tick
/// attempts one reload and leaves nothing pending, so the next tick attempts none.
pub proof fn requests_consumed_once(t: ReloadTrigger, n: nat)
    requires
        n >= 1,
    ensures
        tick_reloads(requested_n(t, n), false),
        !after_tick(requested_n(t, n), false).pending,
        !tick_reloads(after_tick(requested_n(t, n), false), false),
{
}

/// The trigger after `n` requests.
pub open spec fn requested_n(t: ReloadTrigger, n: nat) -> ReloadTrigger
    decreases n,
{
    if n == 0 {
        t
    } else {
        after_request(requested_n(t, (n - 1) as nat))
    }
}

} // verus!
