use vstd::prelude::*;

verus! {

/// A counting gate: at most `capacity` holders at a time. Blocking and
/// waking are left to the caller, which retries `try_acquire` after a
/// `release`.
pub struct PermitGate {
    available: usize,
    capacity: usize,
}

impl PermitGate {
    /// Permits not held at the moment.
    pub closed spec fn spec_available(&self) -> nat {
        self.available as nat
    }

    /// The number of permits in all.
    pub closed spec fn spec_capacity(&self) -> nat {
        self.capacity as nat
    }

    /// Permits held at the moment.
    pub open spec fn spec_held(&self) -> int {
        self.spec_capacity() - self.spec_available()
    }

    /// Never more permits available than there are, and at least one.
    pub open spec fn wf(&self) -> bool {
        1 <= self.spec_capacity() && self.spec_available() <= self.spec_capacity()
    }

    /// A gate with `permits` permits, or one if `permits` is zero.
    pub fn new(permits: usize) -> (r: Self)
        ensures
            r.wf(),
            r.spec_capacity() == if permits == 0 { 1 } else { permits as nat },
            r.spec_available() == r.spec_capacity(),
    {
        let n = if permits == 0 { 1 } else { permits };
        PermitGate { available: n, capacity: n }
    }

    pub fn available(&self) -> (r: usize)
        ensures
            r == self.spec_available(),
    {
        self.available
    }

    pub fn capacity(&self) -> (r: usize)
        ensures
            r == self.spec_capacity(),
    {
        self.capacity
    }

    /// Takes a permit when one is free; false, and no change, when all are
    /// held.
    pub fn try_acquire(&mut self) -> (r: bool)
        requires
            old(self).wf(),
        ensures
            final(self).wf(),
            final(self).spec_capacity() == old(self).spec_capacity(),
            r == (old(self).spec_available() > 0),
            r ==> final(self).spec_available() == old(self).spec_available() - 1,
            !r ==> final(self).spec_available() == old(self).spec_available(),
    {
        if self.available == 0 {
            false
        } else {
            self.available = self.available - 1;
            true
        }
    }

    /// Gives a held permit back.
    pub fn release(&mut self)
        requires
            old(self).wf(),
            old(self).spec_held() > 0,
        ensures
            final(self).wf(),
            final(self).spec_capacity() == old(self).spec_capacity(),
            final(self).spec_available() == old(self).spec_available() + 1,
    {
        self.available = self.available + 1;
    }

    /// Runs `f` holding a permit and gives the permit back afterwards, so
    /// the counts end as they began. When every permit is held, `f` is not
    /// run and `None` comes back: the caller waits for a release and tries
    /// again.
    pub fn with_permit<T, F: FnOnce() -> T>(&mut self, f: F) -> (r: Option<T>)
        requires
            old(self).wf(),
            f.requires(()),
        ensures
            final(self).wf(),
            final(self).spec_capacity() == old(self).spec_capacity(),
            final(self).spec_available() == old(self).spec_available(),
            r is None <==> old(self).spec_available() == 0,
            r matches Some(v) ==> f.ensures((), v),
    {
        if self.try_acquire() {
            let v = f();
            self.release();
            Some(v)
        } else {
            None
        }
    }
}

/// Whatever happened before, no more than the capacity hold a permit,
/// and a permit taken and given back leaves the counts as they were.
pub proof fn lemma_permit_gate_bounds(before: PermitGate, acquired: PermitGate, released: PermitGate)
    requires
        before.wf(),
        before.spec_available() > 0,
        acquired.spec_capacity() == before.spec_capacity(),
        acquired.spec_available() == before.spec_available() - 1,
        released.spec_capacity() == acquired.spec_capacity(),
        released.spec_available() == acquired.spec_available() + 1,
    ensures
        acquired.wf(),
        0 <= acquired.spec_held() <= acquired.spec_capacity(),
        released.spec_available() == before.spec_available(),
        released.spec_held() == before.spec_held(),
{
}

} // verus!
