use admission_gate::gate::GateError;
use admission_gate::naive_semaphore::Counter;
use admission_gate::naive_semaphore::NaiveSemaphore;
use admission_gate::simple_semaphore::NaiveSemaphore as SimpleSemaphore;

#[test]
fn counter_starts_at_given_value() {
    let c = Counter::new(5);
    assert_eq!(c.get(), 5);
}

#[test]
fn counter_incr_adds_one() {
    let mut c = Counter::new(0);
    c.incr();
    c.incr();
    assert_eq!(c.get(), 2);
}

#[test]
fn counter_decr_subtracts_one() {
    let mut c = Counter::new(3);
    c.decr();
    assert_eq!(c.get(), 2);
}

#[test]
fn new_gate_is_open_and_empty() {
    let g = NaiveSemaphore::new(4);
    assert_eq!(g.current_count(), 0);
    assert!(!g.is_full());
    assert_eq!(g.waiting_count(), 0);
}

#[test]
fn try_new_rejects_zero_capacity() {
    assert!(matches!(
        NaiveSemaphore::try_new(0),
        Err(GateError::InvalidCapacity)
    ));
    assert!(matches!(
        SimpleSemaphore::try_new(0),
        Err(GateError::InvalidCapacity)
    ));
}

#[test]
fn try_new_accepts_positive_capacity() {
    let g = NaiveSemaphore::try_new(3).unwrap();
    assert_eq!(g.current_count(), 0);
    assert!(!g.is_full());
    let s = SimpleSemaphore::try_new(3).unwrap();
    assert_eq!(s.current_count(), 0);
    assert!(!s.is_full());
}

#[test]
fn admissions_fill_the_gate_to_capacity() {
    let mut g = NaiveSemaphore::new(4);
    for expected in 1..=4 {
        assert!(!g.is_full());
        g.wait();
        assert_eq!(g.current_count(), expected);
    }
    assert!(g.is_full());
    // A fifth caller parks instead of being admitted.
    g.wait();
    assert_eq!(g.current_count(), 4);
    assert_eq!(g.waiting_count(), 1);
}

#[test]
fn release_on_empty_gate_is_a_noop() {
    let mut g = NaiveSemaphore::new(2);
    g.release_one();
    assert_eq!(g.current_count(), 0);
    assert!(!g.is_full());
    assert_eq!(g.waiting_count(), 0);
}

#[test]
fn simple_release_on_empty_gate_is_a_noop() {
    let mut g = SimpleSemaphore::new(2);
    g.release_one();
    assert_eq!(g.current_count(), 0);
    assert!(!g.is_full());
    assert_eq!(g.waiting_count(), 0);
}

#[test]
fn release_from_full_unparks_exactly_one() {
    let mut g = NaiveSemaphore::new(2);
    g.wait();
    g.wait();
    assert!(g.is_full());
    // Three more callers park behind the full gate.
    g.wait();
    g.wait();
    g.wait();
    assert_eq!(g.waiting_count(), 3);
    g.release_one();
    assert!(!g.is_full());
    assert_eq!(g.current_count(), 1);
    assert_eq!(g.waiting_count(), 2);
}

#[test]
fn release_when_open_wakes_nobody() {
    let mut g = SimpleSemaphore::new(2);
    g.wait();
    assert!(!g.is_full());
    g.release_one();
    assert_eq!(g.current_count(), 0);
    assert_eq!(g.waiting_count(), 0);
}

#[test]
fn only_one_of_two_callers_passes_a_unit_gate() {
    let mut g = NaiveSemaphore::new(1);
    assert!(!g.is_full());
    g.wait(); // first caller: admitted
    assert_eq!(g.current_count(), 1);
    assert!(g.is_full());
    g.wait(); // second caller: parks behind the full gate
    assert_eq!(g.current_count(), 1);
    assert_eq!(g.waiting_count(), 1);
    // Only after the first caller releases is the second woken and admitted.
    g.release_one();
    assert_eq!(g.waiting_count(), 0);
    g.resume();
    assert_eq!(g.current_count(), 1);
    assert!(g.is_full());
}

#[test]
fn simple_only_one_of_two_callers_passes_a_unit_gate() {
    let mut g = SimpleSemaphore::new(1);
    g.wait();
    assert!(g.is_full());
    g.wait();
    assert_eq!(g.current_count(), 1);
    assert_eq!(g.waiting_count(), 1);
    g.release_one();
    assert_eq!(g.waiting_count(), 0);
    g.resume();
    assert_eq!(g.current_count(), 1);
}

#[test]
fn woken_caller_resuming_against_a_refilled_gate_overshoots() {
    // The woken caller does not re-check the full flag, so if a fresh
    // arrival slips in and refills the semaphore before the woken caller
    // resumes, the count passes the capacity. The capacity bound holds
    // only of traces without such a resume.
    let mut g = NaiveSemaphore::new(1);
    g.wait(); // admitted; gate full
    g.wait(); // parks
    g.release_one(); // wakes the parked caller; gate open, count 0
    assert!(!g.is_full());
    g.wait(); // a fresh arrival takes the slot; gate full again
    assert_eq!(g.current_count(), 1);
    assert!(g.is_full());
    g.resume(); // the woken caller is admitted anyway
    assert_eq!(g.current_count(), 2); // past the capacity of 1
}

#[test]
fn full_cycle_drains_to_empty() {
    let mut g = SimpleSemaphore::new(3);
    g.wait();
    g.wait();
    g.wait();
    assert!(g.is_full());
    g.release_one();
    g.release_one();
    g.release_one();
    assert_eq!(g.current_count(), 0);
    assert!(!g.is_full());
    g.release_one(); // one release too many: ignored
    assert_eq!(g.current_count(), 0);
}
