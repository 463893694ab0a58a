//! Local wall-clock time and the two texts that a capture session makes of
//! it: the timestamp of a record and the stamp in a capture file's name.

use vstd::prelude::*;
use crate::text::{push_zero_padded, zero_padded};

verus! {

/// A moment of local time, by its calendar fields and the zone's offset
/// from UTC in seconds (positive to the east).
#[derive(Clone, Copy, Debug)]
pub struct LocalTime {
    pub year: i32,
    pub month: u32,
    pub day: u32,
    pub hour: u32,
    pub minute: u32,
    pub second: u32,
    pub offset: i32,
}

/// The year as text: four digits from year 0 to 9999, else a sign and at
/// least four digits.
pub open spec fn year_text(year: int) -> Seq<char> {
    if 0 <= year < 10000 {
        zero_padded(year as nat, 4)
    } else if year < 0 {
        seq!['-'] + zero_padded((-year) as nat, 4)
    } else {
        seq!['+'] + zero_padded(year as nat, 4)
    }
}

/// The minutes of an offset given in seconds, rounded to the nearest
/// minute, without its sign.
pub open spec fn offset_minutes(offset: int) -> nat {
    if offset < 0 {
        ((-offset + 30) / 60) as nat
    } else {
        ((offset + 30) / 60) as nat
    }
}

/// The offset as text: a sign, two digits of hours, a colon and two digits
/// of minutes, such as `+02:00`.
pub open spec fn offset_text(offset: int) -> Seq<char> {
    seq![if offset < 0 { '-' } else { '+' }] + zero_padded(offset_minutes(offset) / 60, 2) + seq![
        ':',
    ] + zero_padded(offset_minutes(offset) % 60, 2)
}

/// The timestamp of a record: `YYYY/MM/DD HH:MM:SS ±HH:MM`.
pub open spec fn timestamp_text(t: LocalTime) -> Seq<char> {
    year_text(t.year as int) + seq!['/'] + zero_padded(t.month as nat, 2) + seq!['/']
        + zero_padded(t.day as nat, 2) + seq![' '] + zero_padded(t.hour as nat, 2) + seq![':']
        + zero_padded(t.minute as nat, 2) + seq![':'] + zero_padded(t.second as nat, 2) + seq![' ']
        + offset_text(t.offset as int)
}

/// The stamp in the name of a capture file: `YYYYMMDD_HHMMSS`.
pub open spec fn file_stamp_text(t: LocalTime) -> Seq<char> {
    year_text(t.year as int) + zero_padded(t.month as nat, 2) + zero_padded(t.day as nat, 2)
        + seq!['_'] + zero_padded(t.hour as nat, 2) + zero_padded(t.minute as nat, 2)
        + zero_padded(t.second as nat, 2)
}

/// Appends the year.
pub fn push_year(out: &mut String, year: i32)
    ensures
        final(out)@ == old(out)@ + year_text(year as int),
{
    if 0 <= year && year < 10000 {
        push_zero_padded(out, year as u64, 4);
    } else if year < 0 {
        out.push('-');
        let wide: i64 = year as i64;
        push_zero_padded(out, (-wide) as u64, 4);
        assert(out@ =~= old(out)@ + year_text(year as int));
    } else {
        out.push('+');
        push_zero_padded(out, year as u64, 4);
        assert(out@ =~= old(out)@ + year_text(year as int));
    }
}

/// Appends the offset from UTC.
pub fn push_offset(out: &mut String, offset: i32)
    ensures
        final(out)@ == old(out)@ + offset_text(offset as int),
{
    let wide: i64 = offset as i64;
    let minutes: u64 = if wide < 0 {
        ((-wide + 30) / 60) as u64
    } else {
        ((wide + 30) / 60) as u64
    };
    assert(minutes == offset_minutes(offset as int));
    out.push(if offset < 0 { '-' } else { '+' });
    push_zero_padded(out, minutes / 60, 2);
    out.push(':');
    push_zero_padded(out, minutes % 60, 2);
    assert(out@ =~= old(out)@ + offset_text(offset as int));
}

impl LocalTime {
    /// Whether the fields are those of a real clock reading: a month from
    /// 1 to 12, a day from 1 to 31, a time of day, and an offset of less
    /// than a day.
    pub open spec fn wf(&self) -> bool {
        &&& 1 <= self.month <= 12
        &&& 1 <= self.day <= 31
        &&& self.hour < 24
        &&& self.minute < 60
        &&& self.second < 60
        &&& -86400 < self.offset < 86400
    }

    /// The timestamp that a record made at this moment carries.
    pub fn timestamp(&self) -> (s: String)
        ensures
            s@ == timestamp_text(*self),
    {
        let mut out = String::new();
        push_year(&mut out, self.year);
        out.push('/');
        push_zero_padded(&mut out, self.month as u64, 2);
        out.push('/');
        push_zero_padded(&mut out, self.day as u64, 2);
        assert(out@ =~= year_text(self.year as int) + seq!['/'] + zero_padded(self.month as nat, 2)
            + seq!['/'] + zero_padded(self.day as nat, 2));
        out.push(' ');
        push_zero_padded(&mut out, self.hour as u64, 2);
        out.push(':');
        push_zero_padded(&mut out, self.minute as u64, 2);
        out.push(':');
        push_zero_padded(&mut out, self.second as u64, 2);
        assert(out@ =~= year_text(self.year as int) + seq!['/'] + zero_padded(self.month as nat, 2)
            + seq!['/'] + zero_padded(self.day as nat, 2) + seq![' '] + zero_padded(
            self.hour as nat,
            2,
        ) + seq![':'] + zero_padded(self.minute as nat, 2) + seq![':'] + zero_padded(
            self.second as nat,
            2,
        ));
        out.push(' ');
        push_offset(&mut out, self.offset);
        assert(out@ =~= timestamp_text(*self));
        out
    }

    /// The stamp that a capture file opened at this moment has in its name.
    pub fn file_stamp(&self) -> (s: String)
        ensures
            s@ == file_stamp_text(*self),
    {
        let mut out = String::new();
        push_year(&mut out, self.year);
        push_zero_padded(&mut out, self.month as u64, 2);
        push_zero_padded(&mut out, self.day as u64, 2);
        assert(out@ =~= year_text(self.year as int) + zero_padded(self.month as nat, 2)
            + zero_padded(self.day as nat, 2));
        out.push('_');
        push_zero_padded(&mut out, self.hour as u64, 2);
        push_zero_padded(&mut out, self.minute as u64, 2);
        push_zero_padded(&mut out, self.second as u64, 2);
        assert(out@ =~= file_stamp_text(*self));
        out
    }
}

/// Reads the local clock with `chrono::Local::now` and copies out the
/// calendar fields (`Datelike`, `Timelike`) and the zone's offset
/// (`FixedOffset::local_minus_utc`). The contract claims only the ranges
/// that chrono documents for these fields, whatever the moment.
#[verifier::external_body]
pub(crate) fn local_now() -> (t: LocalTime)
    ensures
        t.wf(),
{
    let now = chrono::Local::now();
    LocalTime {
        year: chrono::Datelike::year(&now),
        month: chrono::Datelike::month(&now),
        day: chrono::Datelike::day(&now),
        hour: chrono::Timelike::hour(&now),
        minute: chrono::Timelike::minute(&now),
        second: chrono::Timelike::second(&now),
        offset: now.offset().local_minus_utc(),
    }
}

} // verus!
