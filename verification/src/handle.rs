//! The exclusive-access discipline on the device handle. Exactly one
//! device handle exists per connection, and the two pumps contend for
//! it behind a mutual-exclusion lock. This module is the instrumented
//! model of that discipline: a `SharedHandle` records which pump holds
//! the device, acquisition is granted only when no pump does, and the
//! single-holder property is proved to hold at every point of every
//! run that obeys the protocol. Correctness nowhere depends on the
//! order in which the pumps win the lock — only on exclusivity.

use vstd::prelude::*;

verus! {

/// The two pump activities that contend for the device handle.
#[derive(Clone, Copy, PartialEq, Eq, Structural, Debug)]
pub enum PumpId {
    /// Console lines in, device writes out.
    Input,
    /// Device reads in, console prints out.
    Output,
}

/// The holder bookkeeping of one connection's device handle: which of
/// the two pumps, if any, currently has exclusive access.
pub struct SharedHandle {
    /// The input pump is inside its acquire/release span.
    pub input_holds: bool,
    /// The output pump is inside its acquire/release span.
    pub output_holds: bool,
}

/// One protocol step a pump can take against the handle.
#[derive(Clone, Copy, PartialEq, Eq, Structural, Debug)]
pub enum HandleOp {
    /// The pump takes the handle (granted only while no pump holds it).
    Acquire(PumpId),
    /// The pump gives the handle back.
    Release(PumpId),
}

impl SharedHandle {
    /// Whether this pump currently holds the device.
    pub open spec fn holds(self, p: PumpId) -> bool {
        match p {
            PumpId::Input => self.input_holds,
            PumpId::Output => self.output_holds,
        }
    }

    /// No pump holds the device.
    pub open spec fn free(self) -> bool {
        !self.input_holds && !self.output_holds
    }

    /// The single-holder property: the two pumps never hold the device
    /// at the same time.
    pub open spec fn exclusive(self) -> bool {
        !(self.input_holds && self.output_holds)
    }

    /// A handle with no holder, as a fresh connection starts.
    pub fn new() -> (h: SharedHandle)
        ensures
            h.free(),
    {
        SharedHandle { input_holds: false, output_holds: false }
    }

    /// Take the handle for one pump. The lock blocks until no pump
    /// holds the device, so the caller arrives only when the handle is
    /// free; that is the `requires`.
    pub fn acquire(&mut self, p: PumpId)
        requires
            old(self).free(),
        ensures
            final(self).holds(p),
            *final(self) == spec_apply(*old(self), HandleOp::Acquire(p)),
    {
        match p {
            PumpId::Input => self.input_holds = true,
            PumpId::Output => self.output_holds = true,
        }
    }

    /// Take the handle if no pump holds it; report whether it was
    /// granted. A refusal leaves the handle exactly as it was.
    pub fn try_acquire(&mut self, p: PumpId) -> (granted: bool)
        ensures
            granted == old(self).free(),
            granted ==> *final(self) == spec_apply(*old(self), HandleOp::Acquire(p)),
            granted ==> final(self).holds(p),
            !granted ==> *final(self) == *old(self),
    {
        if self.input_holds || self.output_holds {
            false
        } else {
            match p {
                PumpId::Input => self.input_holds = true,
                PumpId::Output => self.output_holds = true,
            }
            true
        }
    }

    /// Give the handle back. Only the holder releases; the other pump's
    /// standing is untouched.
    pub fn release(&mut self, p: PumpId)
        requires
            old(self).holds(p),
        ensures
            !final(self).holds(p),
            *final(self) == spec_apply(*old(self), HandleOp::Release(p)),
    {
        match p {
            PumpId::Input => self.input_holds = false,
            PumpId::Output => self.output_holds = false,
        }
    }
}

/// Whether a protocol step may be taken in a state: acquisition waits
/// for the handle to be free, and only the holder releases.
pub open spec fn op_enabled(s: SharedHandle, op: HandleOp) -> bool {
    match op {
        HandleOp::Acquire(_) => s.free(),
        HandleOp::Release(p) => s.holds(p),
    }
}

/// The state after one protocol step.
pub open spec fn spec_apply(s: SharedHandle, op: HandleOp) -> SharedHandle {
    match op {
        HandleOp::Acquire(PumpId::Input) => SharedHandle { input_holds: true, ..s },
        HandleOp::Acquire(PumpId::Output) => SharedHandle { output_holds: true, ..s },
        HandleOp::Release(PumpId::Input) => SharedHandle { input_holds: false, ..s },
        HandleOp::Release(PumpId::Output) => SharedHandle { output_holds: false, ..s },
    }
}

/// Whether a whole run obeys the protocol: each step is enabled in the
/// state the preceding steps produced.
pub open spec fn ops_enabled(s: SharedHandle, ops: Seq<HandleOp>) -> bool
    decreases ops.len(),
{
    ops.len() == 0 || (op_enabled(s, ops.first()) && ops_enabled(
        spec_apply(s, ops.first()),
        ops.drop_first(),
    ))
}

/// The state after a whole run.
pub open spec fn run_handle(s: SharedHandle, ops: Seq<HandleOp>) -> SharedHandle
    decreases ops.len(),
{
    if ops.len() == 0 {
        s
    } else {
        run_handle(spec_apply(s, ops.first()), ops.drop_first())
    }
}

/// One protocol step keeps the single-holder property.
pub proof fn lemma_exclusive_step(s: SharedHandle, op: HandleOp)
    requires
        s.exclusive(),
        op_enabled(s, op),
    ensures
        spec_apply(s, op).exclusive(),
{
}

/// A whole protocol run keeps the single-holder property.
pub proof fn lemma_exclusive_run(s: SharedHandle, ops: Seq<HandleOp>)
    requires
        s.exclusive(),
        ops_enabled(s, ops),
    ensures
        run_handle(s, ops).exclusive(),
    decreases ops.len(),
{
    if ops.len() > 0 {
        lemma_exclusive_step(s, ops.first());
        lemma_exclusive_run(spec_apply(s, ops.first()), ops.drop_first());
    }
}

/// A prefix of a protocol-obeying run obeys the protocol.
pub proof fn lemma_prefix_enabled(s: SharedHandle, ops: Seq<HandleOp>, i: int)
    requires
        ops_enabled(s, ops),
        0 <= i <= ops.len(),
    ensures
        ops_enabled(s, ops.take(i)),
    decreases i,
{
    if i > 0 {
        assert(ops.take(i).first() == ops.first());
        assert(ops.take(i).drop_first() =~= ops.drop_first().take(i - 1));
        lemma_prefix_enabled(spec_apply(s, ops.first()), ops.drop_first(), i - 1);
    }
}

/// At no point do the two pumps hold the device simultaneously: in any
/// run that starts from a fresh handle and obeys the protocol, every
/// intermediate state — after every prefix of the run — has at most one
/// holder.
pub proof fn lemma_never_two_holders(ops: Seq<HandleOp>)
    requires
        ops_enabled(SharedHandle { input_holds: false, output_holds: false }, ops),
    ensures
        forall|i: int|
            0 <= i <= ops.len() ==> #[trigger] run_handle(
                SharedHandle { input_holds: false, output_holds: false },
                ops.take(i),
            ).exclusive(),
{
    let s0 = SharedHandle { input_holds: false, output_holds: false };
    assert forall|i: int| 0 <= i <= ops.len() implies #[trigger] run_handle(
        s0,
        ops.take(i),
    ).exclusive() by {
        lemma_prefix_enabled(s0, ops, i);
        lemma_exclusive_run(s0, ops.take(i));
    }
}

} // verus!
