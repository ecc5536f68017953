//! A bounded-concurrency admission gate: at most `max` callers are admitted
//! at a time; further arrivals park until a running caller frees a slot.
//!
//! The verified core is the semaphore's state machine, taken one critical step at
//! a time: `gate` holds the mathematical model and the laws proved of it,
//! while `naive_semaphore` and `simple_semaphore` are the two executable
//! gates, each with contracts that pin every step to the model. Parking and
//! waking real threads is left to an unverified shell that runs these steps
//! under a host mutex and condition variable.

pub mod gate;
pub mod naive_semaphore;
pub mod simple_semaphore;
