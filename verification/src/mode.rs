//! The interaction mode of the overlay window and its cyclic order.

use vstd::prelude::*;

verus! {

/// How the overlay window treats pointer input.
#[derive(Debug, Clone, Copy, PartialEq, Eq, Structural)]
pub enum InteractionMode {
    /// Pointer events fall through to whatever lies below the window.
    Passthrough,
    /// The character can be clicked and dragged.
    Interactive,
    /// The character is shown faintly and takes no input.
    Ghosted,
}

impl InteractionMode {
    /// The mode that follows `self` in the cycle
    /// Interactive, Passthrough, Ghosted, Interactive.
    pub open spec fn successor(self) -> InteractionMode {
        match self {
            InteractionMode::Interactive => InteractionMode::Passthrough,
            InteractionMode::Passthrough => InteractionMode::Ghosted,
            InteractionMode::Ghosted => InteractionMode::Interactive,
        }
    }

    /// The mode reached from `self` by `steps` advances.
    pub open spec fn advanced(self, steps: nat) -> InteractionMode
        decreases steps,
    {
        if steps == 0 {
            self
        } else {
            self.advanced((steps - 1) as nat).successor()
        }
    }

    /// The name under which the mode travels to the presentation layer.
    pub open spec fn wire_name(self) -> Seq<char> {
        match self {
            InteractionMode::Interactive => "interactive"@,
            InteractionMode::Passthrough => "passthrough"@,
            InteractionMode::Ghosted => "ghost"@,
        }
    }

    /// The cyclic successor of `self`.
    pub fn next(&self) -> (following: InteractionMode)
        ensures
            following == self.successor(),
    {
        match self {
            InteractionMode::Interactive => InteractionMode::Passthrough,
            InteractionMode::Passthrough => InteractionMode::Ghosted,
            InteractionMode::Ghosted => InteractionMode::Interactive,
        }
    }

    /// The lower-case name of the mode.
    pub fn name(&self) -> (text: &'static str)
        ensures
            text@ == self.wire_name(),
    {
        match self {
            InteractionMode::Interactive => "interactive",
            InteractionMode::Passthrough => "passthrough",
            InteractionMode::Ghosted => "ghost",
        }
    }
}

impl Default for InteractionMode {
    /// A fresh overlay starts out interactive.
    fn default() -> (mode: InteractionMode)
        ensures
            mode == InteractionMode::Interactive,
    {
        InteractionMode::Interactive
    }
}

/// Three advances lead back to the mode they started from, and no fewer do.
pub proof fn lemma_successor_cycle(mode: InteractionMode)
    ensures
        mode.successor() != mode,
        mode.successor().successor() != mode,
        mode.successor().successor().successor() == mode,
{
}

/// Advancing is periodic with period three from every starting mode.
pub proof fn lemma_advance_period_three(mode: InteractionMode, steps: nat)
    ensures
        mode.advanced(steps + 3) == mode.advanced(steps),
{
    reveal_with_fuel(InteractionMode::advanced, 4);
    lemma_successor_cycle(mode.advanced(steps));
}

/// Only the number of advances modulo three decides the mode reached:
/// none, one or two steps along the cycle.
pub proof fn lemma_advance_by_remainder(mode: InteractionMode, steps: nat)
    ensures
        mode.advanced(steps) == mode.advanced(steps % 3),
        steps % 3 == 0 ==> mode.advanced(steps) == mode,
        steps % 3 == 1 ==> mode.advanced(steps) == mode.successor(),
        steps % 3 == 2 ==> mode.advanced(steps) == mode.successor().successor(),
    decreases steps,
{
    reveal_with_fuel(InteractionMode::advanced, 4);
    if steps >= 3 {
        let fewer = (steps - 3) as nat;
        lemma_advance_by_remainder(mode, fewer);
        lemma_advance_period_three(mode, fewer);
        assert(fewer + 3 == steps);
        assert(fewer % 3 == steps % 3);
    }
}

} // verus!
