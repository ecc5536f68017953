//! The admission gate built over a separate shared counter.
//!
//! `Counter` tracks the number of admitted callers on its own, apart from
//! the full flag; `NaiveSemaphore` combines the two with the wait queue.
//! Every method is one critical step of the state machine in `crate::gate`,
//! and its contract says the new state is that step applied to the old one.
//! An unverified shell composes the steps with a host mutex and condition
//! variable: it parks a caller whose `wait` found the semaphore full, and lets
//! the caller run `resume` once a `release_one` has woken it.

use vstd::prelude::*;

use crate::gate::{GateError, GateModel};

verus! {

/// A counter of currently admitted callers. It never goes below zero: a
/// caller may only decrement after checking the count is positive.
pub struct Counter {
    current: usize,
}

impl View for Counter {
    type V = nat;

    closed spec fn view(&self) -> nat {
        self.current as nat
    }
}

impl Counter {
    /// A counter starting at `current`.
    pub fn new(current: usize) -> (c: Counter)
        ensures
            c@ == current as nat,
    {
        Counter { current }
    }

    /// The current value.
    pub fn get(&self) -> (n: usize)
        ensures
            n == self@,
    {
        self.current
    }

    /// Add one.
    pub fn incr(&mut self)
        requires
            old(self)@ < usize::MAX,
        ensures
            final(self)@ == old(self)@ + 1,
    {
        self.current = self.current + 1;
    }

    /// Subtract one. The caller must have checked that the count is
    /// positive; the semaphore only decrements under that check.
    pub fn decr(&mut self)
        requires
            old(self)@ >= 1,
        ensures
            final(self)@ == (old(self)@ - 1) as nat,
    {
        self.current = self.current - 1;
    }
}

/// The admission gate: a capacity, a full flag, a wait queue, and the
/// shared counter of admitted callers.
pub struct NaiveSemaphore {
    max: usize,
    locked: bool,
    parked: usize,
    current: Counter,
}

impl View for NaiveSemaphore {
    type V = GateModel;

    closed spec fn view(&self) -> GateModel {
        GateModel {
            max: self.max as nat,
            current: self.current@,
            locked: self.locked,
            parked: self.parked as nat,
        }
    }
}

impl NaiveSemaphore {
    /// A fresh gate admitting up to `max` callers at a time.
    pub fn new(max: usize) -> (gate: NaiveSemaphore)
        requires
            max >= 1,
        ensures
            gate@ == GateModel::init(max as nat),
    {
        NaiveSemaphore { max, locked: false, parked: 0, current: Counter::new(0) }
    }

    /// A fresh gate, rejecting a capacity of zero.
    pub fn try_new(max: usize) -> (r: Result<NaiveSemaphore, GateError>)
        ensures
            r is Ok <==> max >= 1,
            (r matches Ok(gate) ==> gate@ == GateModel::init(max as nat)),
            (r matches Err(e) ==> e == GateError::InvalidCapacity),
    {
        if max >= 1 {
            Ok(NaiveSemaphore::new(max))
        } else {
            Err(GateError::InvalidCapacity)
        }
    }

    /// The count of currently admitted callers. Advisory: under concurrent
    /// use the value may be stale the instant it is read.
    pub fn current_count(&self) -> (n: usize)
        ensures
            n == self@.current,
    {
        self.current.get()
    }

    /// Whether the semaphore is currently marked full. The shell reads this under
    /// its lock to decide whether a `wait` parked the caller.
    pub fn is_full(&self) -> (b: bool)
        ensures
            b == self@.locked,
    {
        self.locked
    }

    /// The count of callers parked on the wait queue.
    pub fn waiting_count(&self) -> (n: usize)
        ensures
            n == self@.parked,
    {
        self.parked
    }

    /// One `wait` call, taken as a single step. If the semaphore is full, the
    /// caller joins the wait queue — the shell must then suspend it until a
    /// `release_one` wakes it, after which the caller runs `resume`.
    /// Otherwise the caller is admitted at once and, if admissions have
    /// reached `max`, marks the semaphore full.
    pub fn wait(&mut self)
        requires
            old(self)@.locked ==> old(self)@.parked < usize::MAX,
            !old(self)@.locked ==> old(self)@.current < usize::MAX,
        ensures
            final(self)@ == old(self)@.wait_step(),
    {
        if self.locked {
            self.parked = self.parked + 1;
        } else {
            self.current.incr();
            if self.current.get() >= self.max {
                self.locked = true;
            }
        }
    }

    /// The tail of `wait` for a caller that parked and has been woken: it is
    /// admitted without checking the full flag again and, if admissions have
    /// reached `max`, marks the semaphore full. Because the flag is not
    /// re-checked, a resume run while the semaphore is already full again admits
    /// past `max`; the capacity laws in `crate::gate` hold of the traces
    /// where that does not happen.
    pub fn resume(&mut self)
        requires
            old(self)@.current < usize::MAX,
        ensures
            final(self)@ == old(self)@.resume_step(),
    {
        self.current.incr();
        if self.current.get() >= self.max {
            self.locked = true;
        }
    }

    /// Free one slot. With nobody admitted this is a no-op. Otherwise it
    /// clears the full flag, unparks exactly one caller if the semaphore was full
    /// and someone was parked — the shell must wake that caller so it runs
    /// `resume` — and decrements the admitted count.
    pub fn release_one(&mut self)
        ensures
            final(self)@ == old(self)@.release_step(),
    {
        let current = self.current.get();
        if current >= 1 {
            if self.locked {
                self.locked = false;
                if self.parked >= 1 {
                    self.parked = self.parked - 1;
                }
            }
            self.current.decr();
        }
    }
}

} // verus!
