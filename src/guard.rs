use vstd::prelude::*;

verus! {

/// Proof that the holder was admitted by an [`ExecutionGuard`]. It can only
/// be had from [`ExecutionGuard::try_acquire`] and is handed back to
/// [`ExecutionGuard::release`].
pub struct Permit {
    granted: (),
}

/// A single-permit gate: at most one inference is in flight at a time.
/// Requests that find it held are refused at once, never queued.
pub struct ExecutionGuard {
    busy: bool,
}

impl View for ExecutionGuard {
    /// Whether the permit is currently held.
    type V = bool;

    closed spec fn view(&self) -> bool {
        self.busy
    }
}

/// What an acquisition attempt gives on a guard whose permit is held
/// (`busy`) or free: whether a permit is granted, and whether the permit is
/// held afterwards.
pub open spec fn acquire_step(busy: bool) -> (bool, bool) {
    (!busy, true)
}

impl ExecutionGuard {
    /// A guard whose permit is free.
    pub fn new() -> (r: ExecutionGuard)
        ensures
            !r@,
    {
        ExecutionGuard { busy: false }
    }

    /// Whether the permit is currently held.
    pub fn is_busy(&self) -> (r: bool)
        ensures
            r == self@,
    {
        self.busy
    }

    /// Takes the permit if it is free; gives nothing if it is held.
    pub fn try_acquire(&mut self) -> (r: Option<Permit>)
        ensures
            (r is Some, final(self)@) == acquire_step(old(self)@),
    {
        if self.busy {
            None
        } else {
            self.busy = true;
            Some(Permit { granted: () })
        }
    }

    /// Hands the permit back; the guard is free afterwards.
    pub fn release(&mut self, permit: Permit)
        ensures
            !final(self)@,
    {
        let Permit { granted: _ } = permit;
        self.busy = false;
    }
}

/// Of two acquisition attempts in a row, at most one is granted, and on a
/// free guard exactly the first one is. Once the permit is released, the
/// next attempt is granted.
pub proof fn lemma_single_flight(busy: bool)
    ensures
        !(acquire_step(busy).0 && acquire_step(acquire_step(busy).1).0),
        !busy ==> acquire_step(busy).0 && !acquire_step(acquire_step(busy).1).0,
        acquire_step(false).0,
{
}

} // verus!
