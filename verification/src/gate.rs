//! The mathematical model of the admission gate, and the laws proved of it.
//!
//! The semaphore's state is four values: the capacity `max`, the number of
//! currently admitted callers `current`, the `locked` flag marking the semaphore
//! full, and the number of callers `parked` on the semaphore's wait queue. Each
//! public operation of the executable gates corresponds to one step function
//! here, and their contracts say exactly that: the new state is the step
//! function applied to the old one.

use vstd::prelude::*;

verus! {

/// Abstract state of an admission gate at one instant.
pub struct GateModel {
    /// Capacity: how many callers may be admitted at once. Always at least 1.
    pub max: nat,
    /// Number of callers currently admitted ("running").
    pub current: nat,
    /// The full flag: set when admissions have reached `max`, cleared by a
    /// release. It is a cached flag, not a value re-derived from `current`.
    pub locked: bool,
    /// Number of callers suspended on the semaphore's wait queue.
    pub parked: nat,
}

/// Error for a gate built with a capacity of zero.
#[derive(Clone, Copy, PartialEq, Eq, Structural, Debug)]
pub enum GateError {
    InvalidCapacity,
}

impl GateModel {
    /// A freshly built gate: nobody admitted, nobody parked, gate open.
    pub open spec fn init(max: nat) -> GateModel {
        GateModel { max: max, current: 0, locked: false, parked: 0 }
    }

    /// One `wait` call taken as a single step. A caller that finds the semaphore
    /// full joins the wait queue; otherwise it is admitted at once and, if
    /// admissions have reached `max`, marks the semaphore full.
    pub open spec fn wait_step(self) -> GateModel {
        if self.locked {
            GateModel {
                max: self.max,
                current: self.current,
                locked: self.locked,
                parked: self.parked + 1,
            }
        } else {
            GateModel {
                max: self.max,
                current: self.current + 1,
                locked: self.current + 1 >= self.max,
                parked: self.parked,
            }
        }
    }

    /// A woken caller finishing its `wait`: it is admitted without checking
    /// the full flag again and, if admissions have reached `max`, marks the
    /// gate full. Because the flag is not re-checked, a resume taken while
    /// the semaphore is already full again admits past `max` (see `steady_op`).
    pub open spec fn resume_step(self) -> GateModel {
        GateModel {
            max: self.max,
            current: self.current + 1,
            locked: self.locked || self.current + 1 >= self.max,
            parked: self.parked,
        }
    }

    /// One `release_one` call. With nobody admitted it changes nothing.
    /// Otherwise it clears the full flag, unparks one caller if the semaphore was
    /// full and someone was parked (a wakeup with an empty queue is lost),
    /// and decrements the admitted count.
    pub open spec fn release_step(self) -> GateModel {
        if self.current == 0 {
            self
        } else {
            GateModel {
                max: self.max,
                current: (self.current - 1) as nat,
                locked: false,
                parked: if self.locked && self.parked > 0 {
                    (self.parked - 1) as nat
                } else {
                    self.parked
                },
            }
        }
    }

    /// The semaphore invariant: admissions never exceed capacity, and the full
    /// flag holds exactly when they have reached it.
    pub open spec fn inv(self) -> bool {
        &&& self.max >= 1
        &&& self.current <= self.max
        &&& (self.locked <==> self.current == self.max)
    }
}

/// The three operations a caller can take on a gate.
pub enum GateOp {
    /// A caller arrives: `wait_step`.
    Arrive,
    /// A woken caller finishes its wait: `resume_step`.
    Resume,
    /// A caller frees its slot: `release_step`.
    ReleaseOne,
}

/// The state after one operation.
pub open spec fn gate_step(pre: GateModel, op: GateOp) -> GateModel {
    match op {
        GateOp::Arrive => pre.wait_step(),
        GateOp::Resume => pre.resume_step(),
        GateOp::ReleaseOne => pre.release_step(),
    }
}

/// A step is steady when no woken caller is re-admitted while the semaphore has
/// already filled up again. The window in which that happens is the semaphore's
/// known race: a woken caller does not re-check the full flag, so a resume
/// against a full gate admits past `max`. The capacity laws below hold of
/// every trace whose steps are steady.
pub open spec fn steady_op(pre: GateModel, op: GateOp) -> bool {
    op is Resume ==> !pre.locked
}

/// The state after a whole sequence of operations.
pub open spec fn run_steps(s0: GateModel, ops: Seq<GateOp>) -> GateModel
    decreases ops.len(),
{
    if ops.len() == 0 {
        s0
    } else {
        run_steps(gate_step(s0, ops[0]), ops.skip(1))
    }
}

/// Every step of the sequence is steady in the state it is taken from.
pub open spec fn steady_steps(s0: GateModel, ops: Seq<GateOp>) -> bool
    decreases ops.len(),
{
    ops.len() == 0 || (steady_op(s0, ops[0]) && steady_steps(gate_step(s0, ops[0]), ops.skip(1)))
}

/// One steady step preserves the semaphore invariant.
pub proof fn lemma_step_preserves_inv(pre: GateModel, op: GateOp)
    requires
        pre.inv(),
        steady_op(pre, op),
    ensures
        gate_step(pre, op).inv(),
{
}

/// The invariant holds all along a steady trace.
pub proof fn lemma_run_preserves_inv(s0: GateModel, ops: Seq<GateOp>)
    requires
        s0.inv(),
        steady_steps(s0, ops),
    ensures
        run_steps(s0, ops).inv(),
    decreases ops.len(),
{
    if ops.len() > 0 {
        lemma_step_preserves_inv(s0, ops[0]);
        lemma_run_preserves_inv(gate_step(s0, ops[0]), ops.skip(1));
    }
}

/// The capacity never changes along a trace.
pub proof fn lemma_run_preserves_max(s0: GateModel, ops: Seq<GateOp>)
    ensures
        run_steps(s0, ops).max == s0.max,
    decreases ops.len(),
{
    if ops.len() > 0 {
        lemma_run_preserves_max(gate_step(s0, ops[0]), ops.skip(1));
    }
}

/// Capacity bound: starting from a fresh gate of capacity `max`, along any
/// trace of steady steps, the number of admitted callers never exceeds
/// `max`. Resumes taken while the semaphore is already full again lie outside
/// the steady traces and can overshoot; see `steady_op`.
pub proof fn lemma_capacity_bound(max: nat, ops: Seq<GateOp>)
    requires
        max >= 1,
        steady_steps(GateModel::init(max), ops),
    ensures
        run_steps(GateModel::init(max), ops).current <= max,
{
    lemma_run_preserves_inv(GateModel::init(max), ops);
    lemma_run_preserves_max(GateModel::init(max), ops);
}

/// Whenever the semaphore is full along a steady trace, at least one admitted
/// caller remains. So callers parked behind a full gate are never stranded
/// with nobody left inside to release a slot and wake one of them: the
/// safety core of freedom from deadlock under the wait/release discipline.
pub proof fn lemma_full_gate_has_admitted_caller(max: nat, ops: Seq<GateOp>)
    requires
        max >= 1,
        steady_steps(GateModel::init(max), ops),
        run_steps(GateModel::init(max), ops).locked,
    ensures
        run_steps(GateModel::init(max), ops).current >= 1,
{
    lemma_run_preserves_inv(GateModel::init(max), ops);
    lemma_run_preserves_max(GateModel::init(max), ops);
}

/// Single wakeup: a release that finds the semaphore full, with callers parked
/// and at least one admitted, moves the semaphore from full to open and unparks
/// exactly one caller — not zero, not more.
pub proof fn lemma_single_wakeup(pre: GateModel)
    requires
        pre.current >= 1,
        pre.locked,
        pre.parked >= 1,
    ensures
        !pre.release_step().locked,
        pre.release_step().parked == pre.parked - 1,
        pre.release_step().current == pre.current - 1,
{
}

/// Releasing an empty gate is a no-op: the state is left exactly as it was.
pub proof fn lemma_release_empty_noop(pre: GateModel)
    requires
        pre.current == 0,
    ensures
        pre.release_step() == pre,
{
}

} // verus!
