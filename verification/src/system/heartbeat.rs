//! Heartbeat of a monitored device: an online flag and a time-to-live
//! counter that each health tick decrements.
use vstd::prelude::*;

verus! {

/// Heartbeat of one device.
#[derive(Debug, Clone, Copy)]
pub struct HeartBeat {
    online: bool,
    ttl: i8,
}

/// The state and result of one tick from state `s` (online flag, TTL): the
/// TTL drops by one; when it reaches zero (or was already below one) the
/// heartbeat goes offline with TTL zero and reports `false`, otherwise it
/// reports `true`.
pub open spec fn spec_tick(s: (bool, i8)) -> ((bool, i8), bool) {
    if s.1 <= 1 {
        ((false, 0i8), false)
    } else {
        ((s.0, (s.1 - 1) as i8), true)
    }
}

/// The state after `k` ticks from `s`.
pub open spec fn after_ticks(s: (bool, i8), k: nat) -> (bool, i8)
    decreases k,
{
    if k == 0 {
        s
    } else {
        spec_tick(after_ticks(s, (k - 1) as nat)).0
    }
}

impl View for HeartBeat {
    /// Online flag and TTL.
    type V = (bool, i8);

    closed spec fn view(&self) -> (bool, i8) {
        (self.online, self.ttl)
    }
}

impl HeartBeat {
    /// An offline heartbeat with TTL zero.
    pub fn new() -> (r: Self)
        ensures
            r@ == (false, 0i8),
    {
        HeartBeat { online: false, ttl: 0 }
    }

    /// Set the device as online and reset its TTL counter.
    pub fn feed(&mut self, ttl: i8)
        ensures
            final(self)@ == (true, ttl),
    {
        self.online = true;
        self.ttl = ttl;
    }

    /// Set the device as offline and reset its TTL counter to zero.
    pub fn kill(&mut self)
        ensures
            final(self)@ == (false, 0i8),
    {
        self.online = false;
        self.ttl = 0;
    }

    /// Whether the device is online.
    pub fn check(&self) -> (r: bool)
        ensures
            r == self@.0,
    {
        self.online
    }

    /// The current TTL value.
    pub fn ttl(&self) -> (r: i8)
        ensures
            r == self@.1,
    {
        self.ttl
    }

    /// Decrement the TTL counter; when it was already below one, mark the
    /// device offline. Returns whether the device is still online.
    pub fn tick(&mut self) -> (r: bool)
        ensures
            (final(self)@, r) == spec_tick(old(self)@),
    {
        let prev = self.ttl;
        self.ttl = prev.wrapping_sub(1);
        if prev <= 1 {
            self.ttl = 0;
            self.online = false;
            return false;
        }
        true
    }
}

/// The state after `k` ticks from a heartbeat fed with TTL `ttl >= 0`: it
/// counts down and is online while fewer than `ttl` ticks have passed, and
/// is offline with TTL zero from then on (from the first tick if `ttl` is 0).
pub open spec fn fed_after(ttl: i8, k: nat) -> (bool, i8) {
    if k == 0 || k < ttl {
        (true, (ttl - k) as i8)
    } else {
        (false, 0i8)
    }
}

/// A heartbeat fed with a TTL of `ttl >= 0` counts down by one per tick: after
/// `k` ticks its TTL is `max(ttl - k, 0)`; it is online while `k < ttl` and
/// offline once `k >= ttl` (and `k >= 1`). The `k + 1`-th tick reports the
/// device online exactly when `k + 1 < ttl`.
pub proof fn lemma_heartbeat_expiry(ttl: i8, k: nat)
    requires
        0 <= ttl,
    ensures
        after_ticks((true, ttl), k) == fed_after(ttl, k),
        spec_tick(after_ticks((true, ttl), k)).1 == (k + 1 < ttl),
    decreases k,
{
    if k > 0 {
        lemma_heartbeat_expiry(ttl, (k - 1) as nat);
    }
}

/// An operation on a heartbeat.
pub enum HeartOp {
    /// `feed` with this TTL.
    Feed(i8),
    /// `kill`.
    Kill,
    /// `tick`.
    Tick,
}

/// The state after operation `op` from state `s`.
pub open spec fn apply_op(s: (bool, i8), op: HeartOp) -> (bool, i8) {
    match op {
        HeartOp::Feed(t) => (true, t),
        HeartOp::Kill => (false, 0i8),
        HeartOp::Tick => spec_tick(s).0,
    }
}

/// The state after the operations `ops`, in order, from state `s`.
pub open spec fn run_ops(s: (bool, i8), ops: Seq<HeartOp>) -> (bool, i8)
    decreases ops.len(),
{
    if ops.len() == 0 {
        s
    } else {
        apply_op(run_ops(s, ops.drop_last()), ops.last())
    }
}

/// A heartbeat with a positive TTL is online.
pub open spec fn heart_consistent(s: (bool, i8)) -> bool {
    s.1 > 0 ==> s.0
}

/// From a new heartbeat, whatever feeds, kills and ticks follow, a positive
/// TTL always goes with the online flag, and right after a tick the TTL is
/// never negative.
pub proof fn lemma_heartbeat_consistent(ops: Seq<HeartOp>)
    ensures
        heart_consistent(run_ops((false, 0i8), ops)),
        ops.len() > 0 && ops.last() is Tick ==> run_ops((false, 0i8), ops).1 >= 0,
    decreases ops.len(),
{
    if ops.len() > 0 {
        lemma_heartbeat_consistent(ops.drop_last());
    }
}

} // verus!
