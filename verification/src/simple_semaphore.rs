//! The admission gate with the admitted count held as a plain field, in
//! place of the separate `Counter` of `crate::naive_semaphore`.
//!
//! The two gates step through the same state machine: every method here is
//! one critical step of `crate::gate`, with a contract pinning the new
//! state to that step applied to the old one. An unverified shell composes
//! the steps with a host mutex and condition variable.

use vstd::prelude::*;

use crate::gate::{GateError, GateModel};

verus! {

/// The admission gate: a capacity, a full flag, a wait queue, and the
/// count of admitted callers.
pub struct NaiveSemaphore {
    max: usize,
    locked: bool,
    parked: usize,
    current: usize,
}

impl View for NaiveSemaphore {
    type V = GateModel;

    closed spec fn view(&self) -> GateModel {
        GateModel {
            max: self.max as nat,
            current: self.current as nat,
            locked: self.locked,
            parked: self.parked as nat,
        }
    }
}

impl NaiveSemaphore {
    /// A fresh gate admitting up to `max` callers at a time.
    pub fn new(max: usize) -> (gate: NaiveSemaphore)
        requires
            max >= 1,
        ensures
            gate@ == GateModel::init(max as nat),
    {
        NaiveSemaphore { max, locked: false, parked: 0, current: 0 }
    }

    /// A fresh gate, rejecting a capacity of zero.
    pub fn try_new(max: usize) -> (r: Result<NaiveSemaphore, GateError>)
        ensures
            r is Ok <==> max >= 1,
            (r matches Ok(gate) ==> gate@ == GateModel::init(max as nat)),
            (r matches Err(e) ==> e == GateError::InvalidCapacity),
    {
        if max >= 1 {
            Ok(NaiveSemaphore::new(max))
        } else {
            Err(GateError::InvalidCapacity)
        }
    }

    /// The count of currently admitted callers. Advisory: under concurrent
    /// use the value may be stale the instant it is read.
    pub fn current_count(&self) -> (n: usize)
        ensures
            n == self@.current,
    {
        self.current
    }

    /// Whether the semaphore is currently marked full. The shell reads this under
    /// its lock to decide whether a `wait` parked the caller.
    pub fn is_full(&self) -> (b: bool)
        ensures
            b == self@.locked,
    {
        self.locked
    }

    /// The count of callers parked on the wait queue.
    pub fn waiting_count(&self) -> (n: usize)
        ensures
            n == self@.parked,
    {
        self.parked
    }

    /// One `wait` call, taken as a single step. If the semaphore is full, the
    /// caller joins the wait queue — the shell must then suspend it until a
    /// `release_one` wakes it, after which the caller runs `resume`.
    /// Otherwise the caller is admitted at once and, if admissions have
    /// reached `max`, marks the semaphore full.
    pub fn wait(&mut self)
        requires
            old(self)@.locked ==> old(self)@.parked < usize::MAX,
            !old(self)@.locked ==> old(self)@.current < usize::MAX,
        ensures
            final(self)@ == old(self)@.wait_step(),
    {
        if self.locked {
            self.parked = self.parked + 1;
        } else {
            self.current = self.current + 1;
            if self.current >= self.max {
                self.locked = true;
            }
        }
    }

    /// The tail of `wait` for a caller that parked and has been woken: it is
    /// admitted without checking the full flag again and, if admissions have
    /// reached `max`, marks the semaphore full. Because the flag is not
    /// re-checked, a resume run while the semaphore is already full again admits
    /// past `max`; the capacity laws in `crate::gate` hold of the traces
    /// where that does not happen.
    pub fn resume(&mut self)
        requires
            old(self)@.current < usize::MAX,
        ensures
            final(self)@ == old(self)@.resume_step(),
    {
        self.current = self.current + 1;
        if self.current >= self.max {
            self.locked = true;
        }
    }

    /// Free one slot. With nobody admitted this is a no-op. Otherwise it
    /// clears the full flag, unparks exactly one caller if the semaphore was full
    /// and someone was parked — the shell must wake that caller so it runs
    /// `resume` — and decrements the admitted count.
    pub fn release_one(&mut self)
        ensures
            final(self)@ == old(self)@.release_step(),
    {
        if self.current >= 1 {
            if self.locked {
                self.locked = false;
                if self.parked >= 1 {
                    self.parked = self.parked - 1;
                }
            }
            self.current = self.current - 1;
        }
    }
}

} // verus!
