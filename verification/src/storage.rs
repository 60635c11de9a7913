//! Storage helpers: bounding synchronous flash work, and serializing
//! read requests to the storage task so every reader gets its own reply.
use vstd::prelude::*;

verus! {

/// Flash operations between two yields to the executor.
pub const OPERATIONS_PER_YIELD: u8 = 32;

/// A flash driver that yields to the executor every
/// [`OPERATIONS_PER_YIELD`] operations, bounding how long uncached map
/// scans and garbage collection run without a break.
pub struct CooperativeFlash<F> {
    flash: F,
    operations: u8,
}

impl<F> CooperativeFlash<F> {
    pub closed spec fn spec_operations(&self) -> u8 {
        self.operations
    }

    pub closed spec fn wf(&self) -> bool {
        self.operations <= OPERATIONS_PER_YIELD
    }

    pub closed spec fn spec_flash(&self) -> F {
        self.flash
    }

    /// The wrapped driver, for the operation that was just counted.
    pub fn flash(&mut self) -> (r: &mut F)
        ensures
            *r == old(self).spec_flash(),
            final(self).spec_flash() == *final(r),
            final(self).spec_operations() == old(self).spec_operations(),
            final(self).wf() == old(self).wf(),
    {
        &mut self.flash
    }

    /// The wrapped driver, read-only.
    pub fn flash_ref(&self) -> (r: &F)
        ensures
            *r == self.spec_flash(),
    {
        &self.flash
    }

    /// Wrap `flash`; no operation counted yet.
    pub fn new(flash: F) -> (r: Self)
        ensures
            r.wf(),
            r.spec_operations() == 0,
            r.spec_flash() == flash,
    {
        CooperativeFlash { flash, operations: 0 }
    }

    /// Count the next operation; returns whether to yield before it (after
    /// every [`OPERATIONS_PER_YIELD`] operations).
    pub fn cooperate(&mut self) -> (yield_first: bool)
        requires
            old(self).wf(),
        ensures
            final(self).wf(),
            final(self).spec_flash() == old(self).spec_flash(),
            yield_first == (old(self).spec_operations() == OPERATIONS_PER_YIELD),
            final(self).spec_operations() == if yield_first { 1 } else { old(self).spec_operations() + 1 },
    {
        let yield_first = self.operations == OPERATIONS_PER_YIELD;
        if yield_first {
            self.operations = 0;
        }
        self.operations = self.operations + 1;
        yield_first
    }
}

/// The request/reply protocol of one read channel: whether a sent request's
/// reply is still outstanding. A reader that finds one (its sender was
/// cancelled) drains it before sending its own request, so no reader ever
/// takes another's reply.
pub struct ReadResponse {
    pending: bool,
}

/// What a reader does next.
#[derive(Clone, Copy, Debug, PartialEq, Eq, Structural)]
pub enum ReadStep {
    /// Wait for and discard the reply of a cancelled request first.
    Drain,
    /// Send the request.
    Enqueue,
}

impl ReadResponse {
    pub closed spec fn spec_pending(&self) -> bool {
        self.pending
    }

    /// No request outstanding.
    pub fn new() -> (r: Self)
        ensures
            !r.spec_pending(),
    {
        ReadResponse { pending: false }
    }

    /// First step of a request (holding the channel's lock).
    pub fn begin(&self) -> (r: ReadStep)
        ensures
            r == if self.spec_pending() { ReadStep::Drain } else { ReadStep::Enqueue },
    {
        if self.pending { ReadStep::Drain } else { ReadStep::Enqueue }
    }

    /// The outstanding reply arrived (drained, or taken as ours).
    pub fn reply_taken(&mut self)
        ensures
            !final(self).spec_pending(),
    {
        self.pending = false;
    }

    /// The request went out; its reply is now outstanding.
    pub fn enqueued(&mut self)
        ensures
            final(self).spec_pending(),
    {
        self.pending = true;
    }
}

} // verus!
