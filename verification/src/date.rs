//! A plain calendar timestamp and its rendering.
//!
//! Release headings print the date portion only, as `YYYY-MM-DD`.

use vstd::prelude::*;

use chrono::Datelike;
use chrono::Timelike;

use crate::numfmt::{spec_decimal, spec_pad_left, u64_string_padded};

verus! {

/// Relies on std's `SystemTime::now` read as seconds since the Unix
/// epoch and on chrono's `DateTime::from_timestamp`, a total pairing:
/// a clock before the epoch or beyond chrono's range comes back as an
/// error or `None`, never a panic, and is read as the epoch itself.
/// Chrono's `Datelike` and `Timelike` accessors document the month as
/// 1 to 12, the day as 1 to 31, the hour below 24 and the minute and
/// second below 60, whatever instant they are applied to.
#[verifier::external_body]
fn clock_now_parts() -> (r: (i64, u64, u64, u64, u64, u64))
    ensures
        1 <= r.1 <= 12,
        1 <= r.2 <= 31,
        r.3 < 24,
        r.4 < 60,
        r.5 < 60,
{
    let since_epoch = std::time::SystemTime::now().duration_since(std::time::UNIX_EPOCH);
    let stamped = match since_epoch {
        Ok(d) => chrono::DateTime::from_timestamp(d.as_secs() as i64, 0),
        Err(_) => None,
    };
    let now = match stamped {
        Some(dt) => dt,
        None => chrono::DateTime::UNIX_EPOCH,
    }.naive_local();
    (now.year() as i64, now.month() as u64, now.day() as u64,
        now.hour() as u64, now.minute() as u64, now.second() as u64)
}

/// A wall-clock timestamp broken into plain calendar fields.
#[derive(Debug, Clone, Copy)]
pub struct NaiveDateTime {
    pub year: u64,
    pub month: u64,
    pub day: u64,
    pub hour: u64,
    pub minute: u64,
    pub second: u64,
}

impl NaiveDateTime {
    /// The calendar fields lie in their usual ranges.
    pub open spec fn wf(&self) -> bool {
        &&& 1 <= self.month <= 12
        &&& 1 <= self.day <= 31
        &&& self.hour < 24
        &&& self.minute < 60
        &&& self.second < 60
    }

    pub fn new(year: u64, month: u64, day: u64, hour: u64, minute: u64, second: u64) -> (r: Self)
        ensures
            r == (NaiveDateTime { year, month, day, hour, minute, second }),
    {
        NaiveDateTime { year, month, day, hour, minute, second }
    }

    /// The current wall-clock time, read without any failure mode: a
    /// clock before the Unix epoch or beyond the representable range
    /// is reported as the epoch itself, and a negative year — which
    /// the clock reading does not promise away — as year zero.
    pub fn now() -> (r: Self)
        ensures
            r.wf(),
    {
        let (year, month, day, hour, minute, second) = clock_now_parts();
        let year: u64 = if year < 0 {
            0
        } else {
            year as u64
        };
        NaiveDateTime { year, month, day, hour, minute, second }
    }

    /// The `YYYY-MM-DD` rendering of `format_ymd`.
    pub open spec fn spec_ymd(&self) -> Seq<char> {
        spec_pad_left(spec_decimal(self.year as nat), 4) + "-"@ + spec_pad_left(
            spec_decimal(self.month as nat),
            2,
        ) + "-"@ + spec_pad_left(spec_decimal(self.day as nat), 2)
    }

    /// The date portion, zero-padded: `2015-09-05`.
    pub fn format_ymd(&self) -> (r: String)
        ensures
            r@ == self.spec_ymd(),
    {
        let mut r = u64_string_padded(self.year, 4);
        r.append("-");
        let month = u64_string_padded(self.month, 2);
        r.append(month.as_str());
        r.append("-");
        let day = u64_string_padded(self.day, 2);
        r.append(day.as_str());
        proof {
            assert(r@ =~= self.spec_ymd());
        }
        r
    }
}

} // verus!
