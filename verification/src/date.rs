//! A calendar date at day precision, as plain values. The date picker
//! of the host GUI produces its own date type; the library keeps only
//! what the task logic reads — year, month and day — and the host
//! converts at the boundary.

use vstd::prelude::*;

verus! {

/// A calendar date: year, month and day as plain numbers.
#[derive(Clone, Copy, Debug, PartialEq, Eq, Structural)]
pub struct Date {
    pub year: i32,
    pub month: u8,
    pub day: u8,
}

impl Date {
    /// Month and day stay on the calendar: months one through twelve,
    /// days one through thirty-one.
    pub open spec fn wf(self) -> bool {
        &&& 1 <= self.month <= 12
        &&& 1 <= self.day <= 31
    }

    /// Build a date from its fields.
    pub fn new(year: i32, month: u8, day: u8) -> (r: Date)
        requires
            1 <= month <= 12,
            1 <= day <= 31,
        ensures
            r == (Date { year, month, day }),
            r.wf(),
    {
        Date { year, month, day }
    }
}

} // verus!
