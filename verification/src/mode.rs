//! The application's top-level view selector: a closed, cyclically
//! switchable set of values. Exactly one authoritative copy lives at the
//! dispatcher; panels may cache it.

use vstd::prelude::*;

verus! {

/// The current top-level view of the application.
#[derive(Clone, Copy, Debug, PartialEq, Eq, Structural)]
pub enum Mode {
    Home,
    Note,
}

/// How many values the mode cycle has.
pub open spec fn mode_count() -> nat {
    2
}

/// Deterministic successor relation of the mode cycle: each value maps to
/// the next, wrapping from the last back to the first.
pub open spec fn next_of(m: Mode) -> Mode {
    match m {
        Mode::Home => Mode::Note,
        Mode::Note => Mode::Home,
    }
}

/// The mode reached after `n` switches starting from `m`.
pub open spec fn switched(m: Mode, n: nat) -> Mode
    decreases n,
{
    if n == 0 {
        m
    } else {
        next_of(switched(m, (n - 1) as nat))
    }
}

impl Mode {
    /// Returns the active mode value.
    pub fn current(&self) -> (r: Mode)
        ensures
            r == *self,
    {
        *self
    }

    /// Advances to the next mode in the cycle and returns the new value.
    /// This is the only mutator of a mode value.
    pub fn switch(&mut self) -> (r: Mode)
        ensures
            *final(self) == next_of(*old(self)),
            r == next_of(*old(self)),
    {
        let next = match *self {
            Mode::Home => Mode::Note,
            Mode::Note => Mode::Home,
        };
        *self = next;
        next
    }

    /// A short human-readable name, used by the presentation layer for tab
    /// labels and titles.
    pub fn name(&self) -> (r: &'static str)
        ensures
            *self == Mode::Home ==> r@ == "Home"@,
            *self == Mode::Note ==> r@ == "Note"@,
    {
        match *self {
            Mode::Home => "Home",
            Mode::Note => "Note",
        }
    }
}

impl Default for Mode {
    /// A fresh application starts on the first mode of the cycle.
    fn default() -> (r: Self)
        ensures
            r == Mode::Home,
    {
        Mode::Home
    }
}

/// Law: switching as many times as the cycle has values returns to the
/// original mode, from every starting value.
pub proof fn lemma_switch_cyclic(m: Mode)
    ensures
        switched(m, mode_count()) == m,
{
    reveal_with_fuel(switched, 3);
}

} // verus!
