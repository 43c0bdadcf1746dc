//! The shutdown signal: a shared boolean condition, initially unset, that
//! makes exactly one unset-to-set transition per session and never resets.
//! The capture controller sets it on close; the audio producer polls it and
//! tears its stream down once it observes the set state.

use vstd::prelude::*;

verus! {

/// A write-once-true flag. A fresh session always gets a fresh signal;
/// there is no way to reset one.
pub struct ShutdownSignal {
    fired: bool,
}

impl View for ShutdownSignal {
    type V = bool;

    closed spec fn view(&self) -> bool {
        self.fired
    }
}

/// What setting a signal yields: the set state, whatever it held before.
pub open spec fn spec_set_signal(s: bool) -> bool {
    true
}

impl ShutdownSignal {
    /// A fresh, unset signal.
    pub fn new() -> (s: ShutdownSignal)
        ensures
            !s@,
    {
        ShutdownSignal { fired: false }
    }

    /// Request shutdown. Idempotent: a repeated set is a no-op.
    pub fn set(&mut self)
        ensures
            final(self)@ == spec_set_signal(old(self)@),
    {
        self.fired = true;
    }

    /// Observe the signal without blocking.
    pub fn is_set(&self) -> (r: bool)
        ensures
            r == self@,
    {
        self.fired
    }
}

/// Law: the signal makes its unset-to-set transition at most once. Setting
/// always leaves the signal set, and setting an already-set signal changes
/// nothing, so no sequence of sets produces more than one transition.
pub proof fn lemma_signal_sets_at_most_once(s: bool)
    ensures
        spec_set_signal(s),
        s ==> spec_set_signal(s) == s,
{
}

} // verus!
