//! The timekeeping registers of the real-time clock chip.
//!
//! The chip's first bytes hold the time in binary-coded decimal: seconds
//! in byte 0, minutes in byte 1, hours in byte 2 (with a 12/24-hour flag
//! that doubles as the twenty-hours bit), the weekday in byte 3 and the
//! date in byte 4. Decoding is pure; the read itself goes through the
//! arbiter.

use vstd::prelude::*;

verus! {

/// One day of the week, or unknown where the register holds no valid day.
#[derive(Debug, Clone, Copy, PartialEq, Eq, Structural)]
pub enum Day {
    Unknown,
    Monday,
    Tuesday,
    Wednesday,
    Thursday,
    Friday,
    Saturday,
    Sunday,
}

/// A decoded time of day.
#[derive(Debug, Clone, Copy, PartialEq, Eq, Structural)]
pub struct Time {
    pub second: u8,
    pub minute: u8,
    pub hour: u8,
    pub am_pm: bool,
}

/// A decoded date and time.
#[derive(Debug, Clone, Copy, PartialEq, Eq, Structural)]
pub struct DateTime {
    pub time: Time,
    pub date: u8,
    pub day: Day,
}

/// The seconds a seconds register holds: ones in the low nibble, tens in
/// the next three bits.
pub open spec fn seconds_of(b: u8) -> u8 {
    ((b & 0x0fu8) + 10 * ((b >> 4u8) & 0x07u8)) as u8
}

/// The minutes a minutes register holds, laid out like the seconds.
pub open spec fn minutes_of(b: u8) -> u8 {
    ((b & 0x0fu8) + 10 * ((b >> 4u8) & 0x07u8)) as u8
}

/// Whether the hours register is in 12-hour mode.
pub open spec fn am_pm_of(b: u8) -> bool {
    (b >> 5u8) & 1u8 == 1u8
}

/// The hours an hours register holds: ones plus tens, plus twenty in
/// 24-hour mode when the twenty-hours bit is up.
pub open spec fn hours_of(b: u8) -> u8 {
    ((b & 0x0fu8) + 10 * ((b >> 4u8) & 1u8) + (if am_pm_of(b) {
        0
    } else {
        20 * ((b >> 5u8) & 1u8) as int
    })) as u8
}

/// The weekday a day register holds.
pub open spec fn day_of(b: u8) -> Day {
    let d = b & 0x07u8;
    if d == 1 {
        Day::Monday
    } else if d == 2 {
        Day::Tuesday
    } else if d == 3 {
        Day::Wednesday
    } else if d == 4 {
        Day::Thursday
    } else if d == 5 {
        Day::Friday
    } else if d == 6 {
        Day::Saturday
    } else if d == 7 {
        Day::Sunday
    } else {
        Day::Unknown
    }
}

/// The day of month a date register holds: ones in the low nibble, tens
/// in the next two bits.
pub open spec fn date_of(b: u8) -> u8 {
    ((b & 0x0fu8) + 10 * ((b >> 4u8) & 0x03u8)) as u8
}

/// The raw timekeeping registers as read from the chip.
#[derive(Clone, Copy, Debug)]
pub struct TimekeepingRegisters(pub [u8; 18]);

impl TimekeepingRegisters {
    /// The time of day held in the first three registers.
    pub fn get_time(&self) -> (r: Time)
        ensures
            r.second == seconds_of(self.0[0]),
            r.minute == minutes_of(self.0[1]),
            r.hour == hours_of(self.0[2]),
            r.am_pm == am_pm_of(self.0[2]),
    {
        let b0 = self.0[0];
        let b1 = self.0[1];
        let b2 = self.0[2];
        proof {
            assert(b0 & 0x0f < 16 && (b0 >> 4u8) & 0x07 < 8) by (bit_vector);
            assert(b1 & 0x0f < 16 && (b1 >> 4u8) & 0x07 < 8) by (bit_vector);
            assert(b2 & 0x0f < 16 && (b2 >> 4u8) & 1 < 2 && (b2 >> 5u8) & 1 < 2) by (bit_vector);
        }
        let use_am_pm = (b2 >> 5) & 1 == 1;
        Time {
            second: (b0 & 0x0f) + 10 * ((b0 >> 4) & 0x07),
            minute: (b1 & 0x0f) + 10 * ((b1 >> 4) & 0x07),
            am_pm: use_am_pm,
            hour: (b2 & 0x0f) + 10 * ((b2 >> 4) & 1) + (if use_am_pm {
                0
            } else {
                20 * ((b2 >> 5) & 1)
            }),
        }
    }

    /// The weekday held in the day register.
    pub fn get_day(&self) -> (r: Day)
        ensures
            r == day_of(self.0[3]),
    {
        let b = self.0[3] & 0x07;
        if b == 1 {
            Day::Monday
        } else if b == 2 {
            Day::Tuesday
        } else if b == 3 {
            Day::Wednesday
        } else if b == 4 {
            Day::Thursday
        } else if b == 5 {
            Day::Friday
        } else if b == 6 {
            Day::Saturday
        } else if b == 7 {
            Day::Sunday
        } else {
            Day::Unknown
        }
    }

    /// The day of month held in the date register.
    pub fn get_date(&self) -> (r: u8)
        ensures
            r == date_of(self.0[4]),
    {
        let b = self.0[4];
        proof {
            assert(b & 0x0f < 16 && (b >> 4u8) & 0x03 < 4) by (bit_vector);
        }
        (b & 0x0f) + 10 * ((b >> 4) & 0x03)
    }

    /// The whole decoded date and time.
    pub fn get_date_time(&self) -> (r: DateTime)
        ensures
            r.time.second == seconds_of(self.0[0]),
            r.time.minute == minutes_of(self.0[1]),
            r.time.hour == hours_of(self.0[2]),
            r.time.am_pm == am_pm_of(self.0[2]),
            r.date == date_of(self.0[4]),
            r.day == day_of(self.0[3]),
    {
        DateTime { time: self.get_time(), date: self.get_date(), day: self.get_day() }
    }
}

} // verus!
