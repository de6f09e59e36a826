//! Reconstruction of an unbounded rotary-encoder position from a bounded
//! hardware pulse counter. The hardware register only holds values in
//! `[LOW_LIMIT, HIGH_LIMIT]`; each time the counter reaches a limit it
//! clears itself to zero and an interrupt adds that limit's value to a
//! software accumulator. The reconstructed position is always
//! `accumulator + register`.
//!
//! The hardware side owns the real pulse-counter peripheral and calls
//! `on_high_limit` / `on_low_limit` from the limit interrupt and
//! `set_register` with the register it read; `step_up` / `step_down`
//! model one physical detent of rotation, crossing included, and back the
//! monotonicity argument.
use vstd::prelude::*;

verus! {

/// Upper bound of the hardware pulse-counter register.
pub const HIGH_LIMIT: i16 = 100;

/// Lower bound of the hardware pulse-counter register.
pub const LOW_LIMIT: i16 = -100;

/// Bound on the overflow accumulator. Growth is bounded by physical
/// rotation, so a session never comes near it; it keeps every reading
/// free of overflow.
pub const ACC_LIMIT: i64 = 1_000_000_000_000;

/// Per-encoder reconstructed counter: the bounded hardware register value
/// paired with the accumulator of all limit crossings so far.
pub struct RotaryPosition {
    pub accumulator: i64,
    pub register: i16,
}

/// One detent of physical rotation, by direction.
#[derive(Clone, Copy, Debug, PartialEq, Eq, Structural)]
pub enum Spin {
    Cw,
    Ccw,
}

/// The reconstructed position of a (accumulator, register) pair.
pub open spec fn spec_read(m: (int, int)) -> int {
    m.0 + m.1
}

/// One detent of rotation on the (accumulator, register) pair: the
/// register moves by one, and on reaching a limit the accumulator absorbs
/// that limit's value while the register clears to zero.
pub open spec fn spec_step(m: (int, int), s: Spin) -> (int, int) {
    match s {
        Spin::Cw => if m.1 == HIGH_LIMIT - 1 {
            (m.0 + HIGH_LIMIT, 0)
        } else {
            (m.0, m.1 + 1)
        },
        Spin::Ccw => if m.1 == LOW_LIMIT + 1 {
            (m.0 + LOW_LIMIT, 0)
        } else {
            (m.0, m.1 - 1)
        },
    }
}

/// The pair after a whole sequence of detents, applied in order.
pub open spec fn spec_replay(m: (int, int), s: Seq<Spin>) -> (int, int)
    decreases s.len(),
{
    if s.len() == 0 {
        m
    } else {
        spec_replay(spec_step(m, s[0]), s.drop_first())
    }
}

/// Net physical rotation of a sequence of detents: clockwise ones minus
/// counter-clockwise ones.
pub open spec fn spec_net(s: Seq<Spin>) -> int
    decreases s.len(),
{
    if s.len() == 0 {
        0int
    } else {
        (if s[0] is Cw {
            1int
        } else {
            -1int
        }) + spec_net(s.drop_first())
    }
}

/// After any sequence of detents, however many limit crossings it holds,
/// the reconstructed reading has moved by exactly the net physical
/// rotation: one up per clockwise detent, one down per counter-clockwise
/// detent.
pub proof fn lemma_rotation_monotonic(m: (int, int), s: Seq<Spin>)
    ensures
        spec_read(spec_replay(m, s)) == spec_read(m) + spec_net(s),
    decreases s.len(),
{
    if s.len() > 0 {
        lemma_rotation_monotonic(spec_step(m, s[0]), s.drop_first());
    }
}

impl RotaryPosition {
    /// The mathematical (accumulator, register) pair of this counter.
    pub open spec fn model(self) -> (int, int) {
        (self.accumulator as int, self.register as int)
    }

    /// The register stays strictly inside the hardware limits (on a
    /// crossing the counter clears itself to zero, so it never rests at a
    /// limit) and the accumulator inside its session bound.
    pub open spec fn wf(self) -> bool {
        LOW_LIMIT < self.register < HIGH_LIMIT && -ACC_LIMIT <= self.accumulator <= ACC_LIMIT
    }

    /// A freshly constructed encoder position: the hardware counter is
    /// cleared and no crossing has happened, so the reading is zero.
    pub fn new() -> (r: Self)
        ensures
            r.wf(),
            r.model() == (0int, 0int),
    {
        RotaryPosition { accumulator: 0, register: 0 }
    }

    /// The reconstructed unbounded position: accumulator plus register.
    pub fn read(&self) -> (r: i64)
        requires
            self.wf(),
        ensures
            r == spec_read(self.model()),
    {
        self.accumulator + self.register as i64
    }

    /// The limit interrupt's contribution for one high-limit crossing:
    /// the accumulator absorbs `HIGH_LIMIT`. Nothing else changes.
    pub fn on_high_limit(&mut self)
        requires
            old(self).wf(),
            old(self).accumulator + HIGH_LIMIT <= ACC_LIMIT,
        ensures
            final(self).wf(),
            final(self).accumulator == old(self).accumulator + HIGH_LIMIT,
            final(self).register == old(self).register,
    {
        self.accumulator = self.accumulator + HIGH_LIMIT as i64;
    }

    /// The limit interrupt's contribution for one low-limit crossing:
    /// the accumulator absorbs `LOW_LIMIT` (a negative value).
    pub fn on_low_limit(&mut self)
        requires
            old(self).wf(),
            -ACC_LIMIT <= old(self).accumulator + LOW_LIMIT,
        ensures
            final(self).wf(),
            final(self).accumulator == old(self).accumulator + LOW_LIMIT,
            final(self).register == old(self).register,
    {
        self.accumulator = self.accumulator + LOW_LIMIT as i64;
    }

    /// A fresh hardware register reading.
    pub fn set_register(&mut self, value: i16)
        requires
            old(self).wf(),
            LOW_LIMIT < value < HIGH_LIMIT,
        ensures
            final(self).wf(),
            final(self).register == value,
            final(self).accumulator == old(self).accumulator,
    {
        self.register = value;
    }

    /// One clockwise detent, crossing included: the reading goes up by
    /// exactly one.
    pub fn step_up(&mut self)
        requires
            old(self).wf(),
            old(self).accumulator + HIGH_LIMIT <= ACC_LIMIT,
        ensures
            final(self).wf(),
            final(self).model() == spec_step(old(self).model(), Spin::Cw),
            spec_read(final(self).model()) == spec_read(old(self).model()) + 1,
    {
        if self.register == HIGH_LIMIT - 1 {
            self.accumulator = self.accumulator + HIGH_LIMIT as i64;
            self.register = 0;
        } else {
            self.register = self.register + 1;
        }
    }

    /// One counter-clockwise detent, crossing included: the reading goes
    /// down by exactly one.
    pub fn step_down(&mut self)
        requires
            old(self).wf(),
            -ACC_LIMIT <= old(self).accumulator + LOW_LIMIT,
        ensures
            final(self).wf(),
            final(self).model() == spec_step(old(self).model(), Spin::Ccw),
            spec_read(final(self).model()) == spec_read(old(self).model()) - 1,
    {
        if self.register == LOW_LIMIT + 1 {
            self.accumulator = self.accumulator + LOW_LIMIT as i64;
            self.register = 0;
        } else {
            self.register = self.register - 1;
        }
    }
}

} // verus!
