use vstd::prelude::*;

verus! {

/// Logical level of one digital output line.
#[derive(Clone, Copy, Debug, PartialEq, Eq, Structural)]
pub enum Level {
    High,
    Low,
}

impl Level {
    /// The opposite level.
    pub open spec fn flip(self) -> Level {
        match self {
            Level::High => Level::Low,
            Level::Low => Level::High,
        }
    }

    /// The level reached from `self` after `n` toggles.
    pub open spec fn flip_n(self, n: nat) -> Level
        decreases n,
    {
        if n == 0 {
            self
        } else {
            self.flip_n((n - 1) as nat).flip()
        }
    }
}

/// One digital output line. The electrical configuration (drive mode,
/// pull) is fixed when the line is created; only the logical level changes
/// afterwards, and only by toggling.
#[derive(Clone, Copy, Debug, PartialEq, Eq, Structural)]
pub struct OutputLine {
    pub level: Level,
}

impl OutputLine {
    /// A line initially driven to `level`.
    pub fn new(level: Level) -> (r: OutputLine)
        ensures
            r.level == level,
    {
        OutputLine { level }
    }

    /// Inverts the line's level.
    pub fn toggle(&mut self)
        ensures
            final(self).level == old(self).level.flip(),
    {
        self.level = match self.level {
            Level::High => Level::Low,
            Level::Low => Level::High,
        };
    }
}

/// Toggling a line twice returns it to its original level exactly: the
/// level is a two-valued quantity with no drift.
pub proof fn lemma_toggle_round_trip(l: Level)
    ensures
        l.flip().flip() == l,
{
}

/// After `n` toggles a line is back at its initial level exactly when `n`
/// is even, and at the opposite level exactly when `n` is odd.
pub proof fn lemma_flip_parity(l: Level, n: nat)
    ensures
        (l.flip_n(n) == l) <==> (n % 2 == 0),
        (l.flip_n(n) == l.flip()) <==> (n % 2 == 1),
    decreases n,
{
    if n > 0 {
        lemma_flip_parity(l, (n - 1) as nat);
    }
}

} // verus!
