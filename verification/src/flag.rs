use vstd::prelude::*;

verus! {

/// The process-wide interrupt flag, as the orchestration sees it: false at run
/// start, set true by an interrupt, and never reset. The asynchronous handler
/// that actually receives the signal does nothing but call `trigger` on the
/// value it shares with the polling loop.
pub struct ShutdownFlag {
    pub set: bool,
}

/// The flag after one interrupt arrives, whatever it held before.
pub open spec fn spec_triggered(f: ShutdownFlag) -> ShutdownFlag {
    ShutdownFlag { set: true }
}

impl ShutdownFlag {
    /// A fresh, unset flag.
    pub fn new() -> (f: ShutdownFlag)
        ensures
            !f.set,
    {
        ShutdownFlag { set: false }
    }

    /// Record an interrupt. Only ever sets the flag; nothing unsets it.
    pub fn trigger(&mut self)
        ensures
            *final(self) == spec_triggered(*old(self)),
            final(self).set,
    {
        self.set = true;
    }

    /// Whether an interrupt has been recorded.
    pub fn is_set(&self) -> (r: bool)
        ensures
            r == self.set,
    {
        self.set
    }
}

/// Once set, the flag stays set: an interrupt never clears it, and an
/// interrupt arriving on an already-set flag leaves it unchanged.
pub proof fn lemma_flag_monotonic(f: ShutdownFlag)
    ensures
        spec_triggered(f).set,
        f.set ==> spec_triggered(f) == f,
{
}

/// Triggering the flag twice is the same as triggering it once.
pub proof fn lemma_flag_trigger_idempotent(f: ShutdownFlag)
    ensures
        spec_triggered(spec_triggered(f)) == spec_triggered(f),
{
}

} // verus!
