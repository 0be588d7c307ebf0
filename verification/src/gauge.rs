//! The animator of the gauge needle.
//!
//! The needle does not jump to a new deviation: once per tick it moves one
//! unit towards its target. Arrived, it hovers for a number of ticks and
//! then retreats to a rest position off the scale, where it waits until a
//! new target comes in. The animator decides; the caller keeps the clock,
//! reads the inbox and draws.

use vstd::prelude::*;

verus! {

/// Milliseconds between two ticks.
pub const TICK_INTERVAL_MS: u32 = 8;

/// The rest position used when none is configured: left of the scale.
pub const DEFAULT_REST_POSITION: i32 = -45;

/// The hover duration used when none is configured, in milliseconds.
pub const DEFAULT_HOVER_MS: u32 = 1000;

/// The message that tells the renderer where the needle stands.
#[derive(Clone, Copy, Debug, PartialEq, Eq, Structural)]
pub enum GaugeAction {
    /// The needle's position, in cents.
    UpdateGaugePos(i32),
}

/// What the caller found in the animator's inbox.
#[derive(Clone, Copy, Debug, PartialEq, Eq, Structural)]
pub enum Inbox {
    /// A new target, in cents.
    Target(i32),
    /// Nothing was waiting.
    Empty,
    /// The sending half is gone: the animator has to end.
    Closed,
}

/// What the needle is doing.
#[derive(Clone, Copy, Debug, PartialEq, Eq, Structural)]
pub enum Mode {
    /// On its way to the target.
    Approaching,
    /// At a target that is not the rest position.
    Hovering,
    /// At the rest position, with nothing else to aim at.
    RestWaiting,
}

/// What the caller has to do after a tick.
#[derive(Clone, Copy, Debug, PartialEq, Eq, Structural)]
pub enum Tick {
    /// Send the message to the renderer, sleep one interval, poll the inbox
    /// without blocking, and tick again with what was found.
    Publish(GaugeAction),
    /// Block on the inbox until something arrives, and tick with it.
    AwaitTarget,
    /// Leave the loop.
    Exit,
}

/// The state of the needle.
#[derive(Clone, Copy, Debug, PartialEq, Eq, Structural)]
pub struct GaugeAnimator {
    /// Where the needle stands.
    pub position: i32,
    /// Where it is heading.
    pub target: i32,
    /// Ticks of hovering that are left.
    pub hover_left: u32,
    /// Ticks of hovering granted at each target.
    pub hover_ticks: u32,
    /// The rest position.
    pub rest: i32,
}

/// The distance between two positions.
pub open spec fn distance(a: i32, b: i32) -> int {
    if a <= b {
        b - a
    } else {
        a - b
    }
}

/// The position one tick later: the target itself when it is less than two
/// units away, else one unit closer to it.
pub open spec fn eased(position: i32, target: i32) -> int {
    if distance(position, target) < 2 {
        target as int
    } else if position < target {
        position + 1
    } else {
        position - 1
    }
}

/// The number of whole ticks in a hover duration given in milliseconds.
pub fn hover_ticks_for(hover_ms: u32) -> (ticks: u32)
    ensures
        ticks == hover_ms / TICK_INTERVAL_MS,
{
    hover_ms / TICK_INTERVAL_MS
}

impl GaugeAnimator {
    /// The invariant of the state: the hover count is within its budget,
    /// and it is full whenever the needle is not hovering.
    pub open spec fn wf(&self) -> bool {
        &&& self.hover_left <= self.hover_ticks
        &&& self.spec_mode() != Mode::Hovering ==> self.hover_left == self.hover_ticks
    }

    /// What the needle is doing, read off the state.
    pub open spec fn spec_mode(&self) -> Mode {
        if self.position != self.target {
            Mode::Approaching
        } else if self.target == self.rest {
            Mode::RestWaiting
        } else {
            Mode::Hovering
        }
    }

    /// The state with a new target and a full hover count.
    pub open spec fn retargeted(self, target: i32) -> GaugeAnimator {
        GaugeAnimator { target, hover_left: self.hover_ticks, ..self }
    }

    /// The state after the needle moved one tick towards its target.
    pub open spec fn moved(self) -> GaugeAnimator {
        GaugeAnimator { position: eased(self.position, self.target) as i32, ..self }
    }

    /// The state after one tick that found `inbox`.
    pub open spec fn step(self, inbox: Inbox) -> GaugeAnimator {
        match inbox {
            Inbox::Closed => self,
            Inbox::Target(target) => self.retargeted(target).moved(),
            Inbox::Empty => match self.spec_mode() {
                Mode::Approaching => self.moved(),
                Mode::RestWaiting => self,
                Mode::Hovering => if self.hover_left > 0 {
                    GaugeAnimator { hover_left: (self.hover_left - 1) as u32, ..self }
                } else {
                    self.retargeted(self.rest).moved()
                },
            },
        }
    }

    /// What one tick that found `inbox` asks of the caller.
    pub open spec fn answer(self, inbox: Inbox) -> Tick {
        match inbox {
            Inbox::Closed => Tick::Exit,
            Inbox::Empty if self.spec_mode() == Mode::RestWaiting => Tick::AwaitTarget,
            _ => Tick::Publish(GaugeAction::UpdateGaugePos(self.step(inbox).position)),
        }
    }

    /// The state after `n` ticks in a row that found nothing in the inbox.
    pub open spec fn idle(self, n: nat) -> GaugeAnimator
        decreases n,
    {
        if n == 0 {
            self
        } else {
            self.idle((n - 1) as nat).step(Inbox::Empty)
        }
    }

    /// A needle at `position` that aims at the centre of the scale, with a
    /// full hover count.
    pub fn new(position: i32, hover_ticks: u32, rest: i32) -> (animator: GaugeAnimator)
        ensures
            animator == (GaugeAnimator {
                position,
                target: 0,
                hover_left: hover_ticks,
                hover_ticks,
                rest,
            }),
            animator.wf(),
    {
        GaugeAnimator { position, target: 0, hover_left: hover_ticks, hover_ticks, rest }
    }

    /// What the needle is doing.
    #[verifier::when_used_as_spec(spec_mode)]
    pub fn mode(&self) -> (mode: Mode)
        ensures
            mode == self.spec_mode(),
    {
        if self.position != self.target {
            Mode::Approaching
        } else if self.target == self.rest {
            Mode::RestWaiting
        } else {
            Mode::Hovering
        }
    }

    /// Tells whether the state is well formed. A state made by `new` and
    /// changed by `tick` alone always is.
    pub fn is_well_formed(&self) -> (ok: bool)
        ensures
            ok == self.wf(),
    {
        self.hover_left <= self.hover_ticks && (self.hover_left == self.hover_ticks || (
        self.position == self.target && self.target != self.rest))
    }

    /// Moves the needle one tick towards its target.
    fn advance(&mut self)
        ensures
            *final(self) == old(self).moved(),
            eased(old(self).position, old(self).target) == final(self).position,
            final(self).position == final(self).target || distance(
                final(self).position,
                final(self).target,
            ) + 1 == distance(old(self).position, old(self).target),
    {
        if self.position < self.target {
            self.position = self.position + 1;
        } else if self.position > self.target {
            self.position = self.position - 1;
        }
    }

    /// Runs one tick of the animation with what the caller found in the
    /// inbox.
    ///
    /// A closed inbox ends the animation and changes nothing. A new target
    /// replaces the old one at once, whatever the needle was doing, refills
    /// the hover count, and the needle takes its first step towards it.
    /// With an empty inbox the needle goes on: it steps towards its target,
    /// or spends one tick of hovering, or, when the hovering is used up,
    /// turns to the rest position and takes the first step there. At the
    /// rest position with nothing to do it asks the caller to block on the
    /// inbox. Every other tick publishes the position.
    pub fn tick(&mut self, inbox: Inbox) -> (answer: Tick)
        requires
            old(self).wf(),
        ensures
            final(self).wf(),
            *final(self) == old(self).step(inbox),
            answer == old(self).answer(inbox),
            final(self).hover_ticks == old(self).hover_ticks,
            final(self).rest == old(self).rest,
    {
        match inbox {
            Inbox::Closed => Tick::Exit,
            Inbox::Target(target) => {
                self.target = target;
                self.hover_left = self.hover_ticks;
                self.advance();
                Tick::Publish(GaugeAction::UpdateGaugePos(self.position))
            },
            Inbox::Empty => {
                if self.position == self.target {
                    if self.target == self.rest {
                        return Tick::AwaitTarget;
                    } else if self.hover_left > 0 {
                        self.hover_left = self.hover_left - 1;
                    } else {
                        self.target = self.rest;
                        self.hover_left = self.hover_ticks;
                    }
                }
                self.advance();
                Tick::Publish(GaugeAction::UpdateGaugePos(self.position))
            },
        }
    }
}

/// A tick keeps the state well formed.
pub proof fn lemma_step_wf(s: GaugeAnimator, inbox: Inbox)
    requires
        s.wf(),
    ensures
        s.step(inbox).wf(),
        s.step(inbox).hover_ticks == s.hover_ticks,
        s.step(inbox).rest == s.rest,
{
}

/// A needle on its way, left alone, is `k` units closer to its target after
/// `k` ticks, for every `k` up to the distance, and it keeps its target.
pub proof fn lemma_idle_approach(s: GaugeAnimator, k: nat)
    requires
        s.wf(),
        k <= distance(s.position, s.target),
    ensures
        s.idle(k).wf(),
        s.idle(k).target == s.target,
        s.idle(k).hover_left == s.hover_left,
        s.idle(k).hover_ticks == s.hover_ticks,
        s.idle(k).rest == s.rest,
        s.idle(k).position == if s.position <= s.target {
            s.position + k
        } else {
            s.position - k
        },
    decreases k,
{
    if k > 0 {
        lemma_idle_approach(s, (k - 1) as nat);
    }
}

/// A needle at a target other than the rest position, left alone, stays
/// there for as many ticks as its hover count says, and counts them down.
pub proof fn lemma_idle_hover(s: GaugeAnimator, k: nat)
    requires
        s.wf(),
        s.position == s.target,
        s.target != s.rest,
        k <= s.hover_left,
    ensures
        s.idle(k).wf(),
        s.idle(k).position == s.position,
        s.idle(k).target == s.target,
        s.idle(k).hover_left == s.hover_left - k,
        s.idle(k).hover_ticks == s.hover_ticks,
        s.idle(k).rest == s.rest,
    decreases k,
{
    if k > 0 {
        lemma_idle_hover(s, (k - 1) as nat);
    }
}

/// Idle ticks add up: `a + b` of them are `a` of them and then `b` more.
pub proof fn lemma_idle_split(s: GaugeAnimator, a: nat, b: nat)
    ensures
        s.idle(a + b) == s.idle(a).idle(b),
    decreases b,
{
    if b > 0 {
        lemma_idle_split(s, a, (b - 1) as nat);
        assert(s.idle(a + b) == s.idle((a + b - 1) as nat).step(Inbox::Empty));
    }
}

/// The whole course of a needle that is left alone while it heads for a
/// target other than the rest position, `d` units away.
///
/// For the first `d` ticks it closes in by one unit per tick. It then holds
/// the target for exactly as many ticks as its hover count says, which is
/// the full hover duration whenever it had to travel. The tick after that
/// turns it to the rest position and moves it one step there.
pub proof fn lemma_settles_then_rests(s: GaugeAnimator, k: nat)
    requires
        s.wf(),
        s.target != s.rest,
        k <= distance(s.position, s.target) + s.hover_left + 1,
    ensures
        s.position != s.target ==> s.hover_left == s.hover_ticks,
        k <= distance(s.position, s.target) ==> s.idle(k).target == s.target && s.idle(k).position
            == (if s.position <= s.target {
            s.position + k
        } else {
            s.position - k
        }),
        distance(s.position, s.target) <= k <= distance(s.position, s.target) + s.hover_left
            ==> s.idle(k).target == s.target && s.idle(k).position == s.target,
        k == distance(s.position, s.target) + s.hover_left + 1 ==> s.idle(k).target == s.rest
            && s.idle(k).position == eased(s.target, s.rest) && s.idle(k).position != s.target,
{
    let d = distance(s.position, s.target) as nat;
    let h = s.hover_left as nat;
    if k <= d {
        lemma_idle_approach(s, k);
    } else {
        lemma_idle_approach(s, d);
        let arrived = s.idle(d);
        if k <= d + h {
            lemma_idle_hover(arrived, (k - d) as nat);
            lemma_idle_split(s, d, (k - d) as nat);
        } else {
            lemma_idle_hover(arrived, h);
            lemma_idle_split(s, d, h);
            let spent = arrived.idle(h);
            assert(s.idle(d + h) == spent);
            assert(s.idle(k) == spent.step(Inbox::Empty));
        }
    }
}

/// A target that arrives while the needle hovers takes over at once: the
/// tick that finds it aims at it, refills the hover count, moves the needle
/// one step towards it and publishes, and the needle is on its way again
/// unless that one step already brought it there.
pub proof fn lemma_target_interrupts_hover(s: GaugeAnimator, target: i32)
    requires
        s.wf(),
        s.spec_mode() == Mode::Hovering,
    ensures
        s.step(Inbox::Target(target)).target == target,
        s.step(Inbox::Target(target)).hover_left == s.hover_ticks,
        s.step(Inbox::Target(target)).position == eased(s.position, target),
        s.answer(Inbox::Target(target)) == Tick::Publish(
            GaugeAction::UpdateGaugePos(eased(s.position, target) as i32),
        ),
        distance(s.position, target) >= 2 ==> s.step(Inbox::Target(target)).spec_mode()
            == Mode::Approaching,
        target != s.position ==> distance(s.step(Inbox::Target(target)).position, target) + 1
            == distance(s.position, target),
{
}

} // verus!
