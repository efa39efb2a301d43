use vstd::prelude::*;
use crate::types::{DurationMs, TimeMs};

verus! {

/// A monotonic time source, measured in milliseconds.
///
/// The real variant reads the system clock; the fake variant reads a shared,
/// manually advanced cell, so that a test driver holding a clone of the clock
/// can move time forward under the orchestrator.
#[derive(Clone, Debug)]
pub enum Clock {
    Real,
    Fake(std::rc::Rc<std::cell::RefCell<TimeMs>>),
}

#[verifier::external_type_specification]
#[verifier::external_body]
#[verifier::reject_recursive_types(T)]
pub struct ExRefCell<T: ?Sized>(std::cell::RefCell<T>);

/// Relies on std::cell::RefCell::new: makes a cell holding `v`.
#[verifier::external_body]
fn cell_new(v: TimeMs) -> std::cell::RefCell<TimeMs> {
    std::cell::RefCell::new(v)
}

/// Relies on std::cell::RefCell::borrow: reads the value the cell holds now.
/// What that value is depends on earlier writes through other handles, so
/// nothing is promised of it.
#[verifier::external_body]
fn cell_read(c: &std::cell::RefCell<TimeMs>) -> TimeMs {
    *c.borrow()
}

/// Relies on std::cell::RefCell::replace: stores `v` in the cell.
#[verifier::external_body]
fn cell_write(c: &std::cell::RefCell<TimeMs>, v: TimeMs) {
    c.replace(v);
}

/// Relies on std::time::SystemTime::now, read relative to the Unix epoch:
/// milliseconds of wall-clock time, or 0 if the system clock is set before
/// the epoch. The value depends on the machine, so nothing is promised of it.
#[verifier::external_body]
fn system_now_ms() -> TimeMs {
    match std::time::SystemTime::now().duration_since(std::time::UNIX_EPOCH) {
        Ok(d) => d.as_millis() as TimeMs,
        Err(_) => 0,
    }
}

impl Clock {
    /// A fresh fake clock, starting at instant 0.
    pub fn fake_new() -> (r: Clock)
        ensures
            r is Fake,
    {
        Clock::Fake(std::rc::Rc::new(cell_new(0)))
    }

    /// The current instant. For the fake clock this is whatever the shared
    /// cell holds; for the real clock, the machine's wall-clock time. Either
    /// way the value is outside this library's control, so nothing is
    /// promised of it.
    pub fn now(&self) -> TimeMs {
        match self {
            Clock::Real => system_now_ms(),
            Clock::Fake(current_time) => cell_read(current_time),
        }
    }

    /// Advances the fake clock by `duration` (saturating at the largest
    /// representable instant); a no-op for the real clock.
    pub fn advance(&mut self, duration: DurationMs) {
        if let Clock::Fake(current_time) = self {
            let t = cell_read(current_time);
            cell_write(current_time, t.saturating_add(duration));
        }
    }
}

} // verus!
