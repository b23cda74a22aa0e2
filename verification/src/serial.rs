//! Serial numbers, which tell slots apart for as long as the program runs.
//!
//! A device may hand out the handle of an object that was destroyed again, and slots of different
//! displays may share their numbers. A serial number is handed out once.

use vstd::prelude::*;

verus! {

/// A serial number, for one slot.
#[derive(Debug, PartialEq, Eq)]
pub struct SlotSerial {
    number: u64,
}

impl View for SlotSerial {
    type V = u64;

    closed spec fn view(&self) -> u64 {
        self.number
    }
}

impl SlotSerial {
    /// The number itself, which is given up with the serial number.
    pub(crate) fn into_number(self) -> (number: u64)
        ensures
            number == self@,
    {
        self.number
    }
}

/// The serial numbers of a program. It has one of these for all of its slots: the numbers that one
/// hands out are all different, those of two are not. The model is how many have been handed out.
pub struct SlotSerials {
    issued: u64,
}

impl View for SlotSerials {
    type V = u64;

    closed spec fn view(&self) -> u64 {
        self.issued
    }
}

/// The number that is handed out next, `None` once there is none left.
pub open spec fn next_serial(issued: u64) -> Option<u64> {
    if issued < u64::MAX {
        Some(issued)
    } else {
        None
    }
}

/// How many numbers have been handed out once another was asked for.
pub open spec fn serials_issued(issued: u64) -> u64 {
    if issued < u64::MAX {
        (issued + 1) as u64
    } else {
        issued
    }
}

impl SlotSerials {
    /// The serial numbers of a program that has not made a slot yet.
    pub fn new() -> (serials: SlotSerials)
        ensures
            serials@ == 0,
    {
        SlotSerials { issued: 0 }
    }

    /// Hands out a number that was never handed out before, `None` once there is none left.
    pub fn issue(&mut self) -> (serial: Option<SlotSerial>)
        ensures
            match serial {
                Some(serial) => next_serial(old(self)@) == Some(serial@),
                None => next_serial(old(self)@) is None,
            },
            final(self)@ == serials_issued(old(self)@),
    {
        if self.issued == u64::MAX {
            return None;
        }
        let number: u64 = self.issued;
        self.issued = number + 1;
        Some(SlotSerial { number })
    }
}

/// How many numbers have been handed out once they were asked for `calls` times.
pub open spec fn serials_after(calls: nat) -> u64
    decreases calls,
{
    if calls == 0 {
        0
    } else {
        serials_issued(serials_after((calls - 1) as nat))
    }
}

/// No serial number is handed out twice.
pub proof fn law_serials_are_distinct(earlier: nat, later: nat)
    requires
        earlier < later,
        next_serial(serials_after(later)) is Some,
    ensures
        next_serial(serials_after(earlier)) is Some,
        next_serial(serials_after(earlier)) != next_serial(serials_after(later)),
        serials_after(earlier) < serials_after(later),
    decreases later,
{
    let before = (later - 1) as nat;
    if earlier < before {
        law_serials_are_distinct(earlier, before);
    }
}

} // verus!
