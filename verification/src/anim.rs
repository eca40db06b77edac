//! Model of the animation driver: a current/target pair of drawer values
//! that is retargeted on every render and stepped toward its target once
//! per frame. The step never leaves the closed interval between the
//! previous value and the target, and it makes strict progress, so every
//! animation converges and never jumps.

use vstd::prelude::*;

verus! {

/// The tuple that the drawer animates as one unit: the scrim's alpha
/// channel (in thousandths, so fully opaque is 1000) and the panel's
/// height in logical pixels.
#[derive(Clone, Copy, Debug, PartialEq, Eq, Structural)]
pub struct DrawerValue {
    pub scrim_alpha: u32,
    pub height: u32,
}

/// Distance between two animated components.
pub open spec fn spec_dist(a: u32, b: u32) -> int {
    if a >= b {
        a - b
    } else {
        b - a
    }
}

/// One frame of interpolation: move halfway (rounding the step up, so a
/// distance of one still closes) from `c` toward `t`. The step is
/// written `d - d / 2`, the ceiling of `d / 2`.
pub open spec fn spec_step(c: u32, t: u32) -> u32 {
    if c < t {
        (c + ((t - c) - (t - c) / 2)) as u32
    } else if c > t {
        (c - ((c - t) - (c - t) / 2)) as u32
    } else {
        c
    }
}

/// The stepped value stays between the previous value and the target,
/// and the remaining distance exactly halves (rounding down), so it
/// strictly shrinks while nonzero.
pub proof fn lemma_step_progress(c: u32, t: u32)
    ensures
        c <= t ==> c <= spec_step(c, t) <= t,
        c >= t ==> t <= spec_step(c, t) <= c,
        spec_dist(spec_step(c, t), t) == spec_dist(c, t) / 2,
        c != t ==> spec_dist(spec_step(c, t), t) < spec_dist(c, t),
{
}

/// A value already at its target stays there: the step is a fixpoint.
pub proof fn lemma_step_settled(t: u32)
    ensures
        spec_step(t, t) == t,
{
}

/// Stepping never leaves an interval that holds both the value and the
/// target, so an animation whose endpoints respect a bound respects it
/// at every frame.
pub proof fn lemma_step_within(c: u32, t: u32, bound: u32)
    requires
        c <= bound,
        t <= bound,
    ensures
        spec_step(c, t) <= bound,
{
    lemma_step_progress(c, t);
}

/// `c` stepped toward `t` for `n` frames in a row.
pub open spec fn spec_step_n(c: u32, t: u32, n: nat) -> u32
    decreases n,
{
    if n == 0 {
        c
    } else {
        spec_step_n(spec_step(c, t), t, (n - 1) as nat)
    }
}

/// Convergence of one component: each frame shrinks a nonzero distance
/// by at least one, so after `spec_dist(c, t)` frames the value has
/// reached its target, and it stays there.
pub proof fn lemma_step_n_converges(c: u32, t: u32, n: nat)
    requires
        n >= spec_dist(c, t),
    ensures
        spec_step_n(c, t, n) == t,
    decreases n,
{
    lemma_step_progress(c, t);
    if c == t {
        if n > 0 {
            lemma_step_n_converges(spec_step(c, t), t, (n - 1) as nat);
        }
    } else {
        lemma_step_n_converges(spec_step(c, t), t, (n - 1) as nat);
    }
}

/// Executable interpolation step; exact per `spec_step`.
pub fn step_toward(c: u32, t: u32) -> (r: u32)
    ensures
        r == spec_step(c, t),
{
    if c < t {
        let d: u32 = t - c;
        c + (d - d / 2)
    } else if c > t {
        let d: u32 = c - t;
        c - (d - d / 2)
    } else {
        c
    }
}

/// The animation driver's hidden state for one animated widget: the
/// value as of the last frame and the target it is interpolating
/// toward. The host keeps one of these per animated layer identity,
/// across renders.
#[derive(Clone, Copy, Debug, PartialEq, Eq, Structural)]
pub struct AnimState {
    pub current: DrawerValue,
    pub target: DrawerValue,
}

impl AnimState {
    /// An animation is settled once the interpolated value has reached
    /// its target.
    pub open spec fn settled(self) -> bool {
        self.current == self.target
    }

    /// The state after the target is replaced: interpolation redirects
    /// from the value it has reached so far, never from the old
    /// endpoint, so a retarget alone moves nothing.
    pub open spec fn retargeted(self, t: DrawerValue) -> AnimState {
        AnimState { current: self.current, target: t }
    }

    /// The state after one frame: both components step toward the
    /// target together.
    pub open spec fn ticked(self) -> AnimState {
        AnimState {
            current: DrawerValue {
                scrim_alpha: spec_step(self.current.scrim_alpha, self.target.scrim_alpha),
                height: spec_step(self.current.height, self.target.height),
            },
            target: self.target,
        }
    }

    /// The state after `n` frames with an unchanged target.
    pub open spec fn ticked_n(self, n: nat) -> AnimState
        decreases n,
    {
        if n == 0 {
            self
        } else {
            self.ticked().ticked_n((n - 1) as nat)
        }
    }

    /// A fresh driver state that shows `v` and animates nowhere.
    pub fn new(v: DrawerValue) -> (r: AnimState)
        ensures
            r.current == v,
            r.target == v,
            r.settled(),
    {
        AnimState { current: v, target: v }
    }

    /// Point the animation at a new target, keeping the value reached
    /// so far.
    pub fn retarget(&mut self, t: DrawerValue)
        ensures
            *final(self) == old(self).retargeted(t),
            final(self).current == old(self).current,
            final(self).target == t,
    {
        self.target = t;
    }

    /// Advance the animation by one frame.
    pub fn tick(&mut self)
        ensures
            *final(self) == old(self).ticked(),
            final(self).target == old(self).target,
    {
        self.current = DrawerValue {
            scrim_alpha: step_toward(self.current.scrim_alpha, self.target.scrim_alpha),
            height: step_toward(self.current.height, self.target.height),
        };
    }
}

/// Each frame moves both components per `spec_step_n`, so a state's
/// frames are the componentwise iterated steps.
pub proof fn lemma_ticked_n_components(s: AnimState, n: nat)
    ensures
        s.ticked_n(n).target == s.target,
        s.ticked_n(n).current.scrim_alpha == spec_step_n(
            s.current.scrim_alpha,
            s.target.scrim_alpha,
            n,
        ),
        s.ticked_n(n).current.height == spec_step_n(s.current.height, s.target.height, n),
    decreases n,
{
    if n > 0 {
        lemma_ticked_n_components(s.ticked(), (n - 1) as nat);
    }
}

/// Convergence of the whole animated tuple: once enough frames have
/// passed with an unchanged target, the state is settled.
pub proof fn lemma_anim_converges(s: AnimState, n: nat)
    requires
        n >= spec_dist(s.current.scrim_alpha, s.target.scrim_alpha),
        n >= spec_dist(s.current.height, s.target.height),
    ensures
        s.ticked_n(n).settled(),
        s.ticked_n(n).current == s.target,
        s.ticked_n(n).target == s.target,
{
    lemma_ticked_n_components(s, n);
    lemma_step_n_converges(s.current.scrim_alpha, s.target.scrim_alpha, n);
    lemma_step_n_converges(s.current.height, s.target.height, n);
}

/// Idempotence at the target: a settled animation does not move again.
pub proof fn lemma_settled_stays(s: AnimState)
    requires
        s.settled(),
    ensures
        s.ticked() == s,
{
    lemma_step_settled(s.target.scrim_alpha);
    lemma_step_settled(s.target.height);
}

/// Frames compose: `a + b` frames are `a` frames, then `b` more.
pub proof fn lemma_ticked_n_add(s: AnimState, a: nat, b: nat)
    ensures
        s.ticked_n(a + b) == s.ticked_n(a).ticked_n(b),
    decreases a,
{
    if a > 0 {
        lemma_ticked_n_add(s.ticked(), (a - 1) as nat, b);
    }
}

/// A settled animation stays settled through any number of frames.
pub proof fn lemma_settled_ticked_n(s: AnimState, n: nat)
    requires
        s.settled(),
    ensures
        s.ticked_n(n) == s,
    decreases n,
{
    if n > 0 {
        lemma_settled_stays(s);
        lemma_settled_ticked_n(s.ticked(), (n - 1) as nat);
    }
}

} // verus!
