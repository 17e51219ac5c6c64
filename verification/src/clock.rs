//! IC8 Clock: the device's date and time, time zone and status.

use vstd::prelude::*;
use crate::cosem::{
    date_time_from_wire, date_time_wire, logical_name_data, logical_name_value, opt_view, reply_view,
    unspecified_date_time, CosemDateTime, CosemObjectError, DataView, DlmsData, ObisCode,
};

verus! {

/// Clock: date-time, time zone (minutes) and clock status.
pub struct Clock {
    logical_name: ObisCode,
    datetime: CosemDateTime,
    timezone: i16,
    status: u8,
}

/// The attributes of a [`Clock`].
pub struct ClockView {
    pub logical_name: ObisCode,
    pub datetime: CosemDateTime,
    pub timezone: i16,
    pub status: u8,
}

impl View for Clock {
    type V = ClockView;

    closed spec fn view(&self) -> ClockView {
        ClockView {
            logical_name: self.logical_name,
            datetime: self.datetime,
            timezone: self.timezone,
            status: self.status,
        }
    }
}

impl ClockView {
    /// The value of an attribute, where the class exposes it.
    pub open spec fn attribute(self, attr: u8) -> Option<DataView> {
        match attr {
            1 => Some(logical_name_value(self.logical_name)),
            2 => Some(DataView::DateTime(date_time_wire(self.datetime))),
            3 => Some(DataView::Long(self.timezone)),
            4 => Some(DataView::Long(self.status as i16)),
            _ => None,
        }
    }

    /// Writing attribute `attr` with the decoded value `d` (`None` where
    /// decoding failed): the date-time (2) from twelve date-time bytes, the
    /// time zone (3) from a long.
    pub open spec fn write(self, attr: u8, d: Option<DataView>) -> (Result<(), CosemObjectError>, ClockView) {
        match attr {
            2 => match d {
                Some(DataView::DateTime(b)) => if b.len() == 12 {
                    (Ok(()), ClockView { datetime: date_time_from_wire(b), ..self })
                } else {
                    (Err(CosemObjectError::InvalidData), self)
                },
                _ => (Err(CosemObjectError::InvalidData), self),
            },
            3 => match d {
                Some(DataView::Long(v)) => (Ok(()), ClockView { timezone: v, ..self }),
                _ => (Err(CosemObjectError::InvalidData), self),
            },
            _ => (Err(CosemObjectError::AttributeNotSupported(attr)), self),
        }
    }
}

/// Whether `year` is a leap year of the Gregorian calendar.
pub open spec fn is_leap_year(year: u16) -> bool {
    (year % 4 == 0 && year % 100 != 0) || year % 400 == 0
}

/// The number of days in `month` of `year` (31 for a month outside 1 to 12).
pub open spec fn days_in_month(year: u16, month: u8) -> u8 {
    if month == 2 {
        if is_leap_year(year) {
            29
        } else {
            28
        }
    } else if month == 4 || month == 6 || month == 9 || month == 11 {
        30
    } else {
        31
    }
}

/// The calendar date after (year, month, day); the last year stays where it is.
pub open spec fn next_day(d: (u16, u8, u8)) -> (u16, u8, u8) {
    if d.2 < days_in_month(d.0, d.1) {
        (d.0, d.1, (d.2 + 1) as u8)
    } else if d.1 < 12 {
        (d.0, (d.1 + 1) as u8, 1)
    } else if d.0 < 0xffff {
        ((d.0 + 1) as u16, 1, 1)
    } else {
        (d.0, 1, 1)
    }
}

/// The calendar date `n` days after `d`.
pub open spec fn add_days(d: (u16, u8, u8), n: nat) -> (u16, u8, u8)
    decreases n,
{
    if n == 0 {
        d
    } else {
        next_day(add_days(d, (n - 1) as nat))
    }
}

/// The weekday (1 Monday to 7 Sunday) `days` days later; an unspecified or
/// out-of-range weekday is kept.
pub open spec fn weekday_after(w: Option<u8>, days: nat) -> Option<u8> {
    match w {
        Some(v) => if 1 <= v <= 7 {
            Some((((v - 1) + days) % 7 + 1) as u8)
        } else {
            w
        },
        None => w,
    }
}

/// The offset, in seconds, that an adjust-time argument carries: the
/// hour, minute and second of the date-time in its first twelve bytes.
pub open spec fn adjust_offset(data: Seq<u8>) -> nat {
    (data[5] * 3600 + data[6] * 60 + data[7]) as nat
}

/// A date-time moved forward by `secs` seconds.  The time of day wraps at
/// midnight, each wrap moving the date (and the weekday) on by one day;
/// hundredths, deviation and status are kept.  Where the date or the time
/// of day is not fully specified the date-time is kept as it is.
pub open spec fn shifted(dt: CosemDateTime, secs: nat) -> CosemDateTime {
    match (dt.year, dt.month, dt.day, dt.hour, dt.minute, dt.second) {
        (Some(y), Some(mo), Some(d), Some(h), Some(mi), Some(s)) => {
            let total = h * 3600 + mi * 60 + s + secs;
            let days = (total / 86400) as nat;
            let rem = total % 86400;
            let date = add_days((y, mo, d), days);
            CosemDateTime {
                year: Some(date.0),
                month: Some(date.1),
                day: Some(date.2),
                day_of_week: weekday_after(dt.day_of_week, days),
                hour: Some((rem / 3600) as u8),
                minute: Some(((rem % 3600) / 60) as u8),
                second: Some((rem % 60) as u8),
                ..dt
            }
        },
        _ => dt,
    }
}

impl ClockView {
    /// Invoking method `method_id` with the argument bytes `data`: the
    /// outcome (the reply bytes) and the new attributes.
    pub open spec fn invoke(self, method_id: u8, data: Seq<u8>) -> (Result<Seq<u8>, CosemObjectError>, ClockView) {
        if method_id == 1 {
            if data.len() >= 12 {
                (Ok(seq![0u8, 0u8]), ClockView { datetime: shifted(self.datetime, adjust_offset(data)), ..self })
            } else {
                (Err(CosemObjectError::InvalidData), self)
            }
        } else {
            (Err(CosemObjectError::MethodNotSupported(method_id)), self)
        }
    }
}

fn is_leap(year: u16) -> (r: bool)
    ensures
        r == is_leap_year(year),
{
    (year % 4 == 0 && year % 100 != 0) || year % 400 == 0
}

fn month_days(year: u16, month: u8) -> (r: u8)
    ensures
        r == days_in_month(year, month),
{
    if month == 2 {
        if is_leap(year) {
            29
        } else {
            28
        }
    } else if month == 4 || month == 6 || month == 9 || month == 11 {
        30
    } else {
        31
    }
}

fn following_day(y: u16, m: u8, d: u8) -> (r: (u16, u8, u8))
    ensures
        r == next_day((y, m, d)),
{
    if d < month_days(y, m) {
        (y, m, d + 1)
    } else if m < 12 {
        (y, m + 1, 1)
    } else if y < 0xffff {
        (y + 1, 1, 1)
    } else {
        (y, 1, 1)
    }
}

/// The offset carried by an adjust-time argument of at least twelve bytes.
fn offset_seconds(data: &[u8]) -> (r: u32)
    requires
        data@.len() >= 12,
    ensures
        r == adjust_offset(data@),
        r <= 933555,
{
    let h = data[5] as u32;
    let m = data[6] as u32;
    let s = data[7] as u32;
    assert(h * 3600 <= 918000 && m * 60 <= 15300) by (nonlinear_arith)
        requires
            h <= 255,
            m <= 255,
    ;
    h * 3600 + m * 60 + s
}

fn shift_date_time(dt: CosemDateTime, secs: u32) -> (r: CosemDateTime)
    requires
        secs <= 933555,
    ensures
        r == shifted(dt, secs as nat),
{
    match (dt.year, dt.month, dt.day, dt.hour, dt.minute, dt.second) {
        (Some(y), Some(mo), Some(d), Some(h), Some(mi), Some(s)) => {
            let (h32, mi32, s32) = (h as u32, mi as u32, s as u32);
            assert(h32 * 3600 <= 918000 && mi32 * 60 <= 15300) by (nonlinear_arith)
                requires
                    h32 <= 255,
                    mi32 <= 255,
            ;
            let total: u32 = h32 * 3600 + mi32 * 60 + s32 + secs;
            let days: u32 = total / 86400;
            let rem: u32 = total % 86400;
            let mut date: (u16, u8, u8) = (y, mo, d);
            let mut i: u32 = 0;
            while i < days
                invariant
                    i <= days,
                    date == add_days((y, mo, d), i as nat),
                decreases days - i,
            {
                date = following_day(date.0, date.1, date.2);
                i = i + 1;
            }
            let weekday = match dt.day_of_week {
                Some(w) => if 1 <= w && w <= 7 {
                    Some(((((w - 1) as u32) + days) % 7 + 1) as u8)
                } else {
                    Some(w)
                },
                None => None,
            };
            CosemDateTime {
                year: Some(date.0),
                month: Some(date.1),
                day: Some(date.2),
                day_of_week: weekday,
                hour: Some((rem / 3600) as u8),
                minute: Some(((rem % 3600) / 60) as u8),
                second: Some((rem % 60) as u8),
                hundredths: dt.hundredths,
                deviation: dt.deviation,
                clock_status: dt.clock_status,
            }
        },
        _ => dt,
    }
}

impl Clock {
    /// A clock with nothing set, at time zone 480 minutes.
    pub fn new(logical_name: ObisCode) -> (r: Clock)
        ensures
            r@ == (ClockView { logical_name, datetime: unspecified_date_time(), timezone: 480, status: 0 }),
    {
        Clock { logical_name, datetime: CosemDateTime::default(), timezone: 480, status: 0 }
    }

    pub fn datetime(&self) -> (r: &CosemDateTime)
        ensures
            *r == self@.datetime,
    {
        &self.datetime
    }

    pub fn set_datetime(&mut self, dt: CosemDateTime)
        ensures
            final(self)@ == (ClockView { datetime: dt, ..old(self)@ }),
    {
        self.datetime = dt;
    }

    pub fn timezone(&self) -> (r: i16)
        ensures
            r == self@.timezone,
    {
        self.timezone
    }

    pub fn status(&self) -> (r: u8)
        ensures
            r == self@.status,
    {
        self.status
    }

    pub fn class_id(&self) -> (r: u16)
        ensures
            r == 8,
    {
        8
    }

    pub fn logical_name(&self) -> (r: ObisCode)
        ensures
            r == self@.logical_name,
    {
        self.logical_name
    }

    pub fn attribute_count(&self) -> (r: u8)
        ensures
            r == 10,
    {
        10
    }

    pub fn method_count(&self) -> (r: u8)
        ensures
            r == 3,
    {
        3
    }

    /// The value of attribute `attr`, for the A-XDR encoder.
    pub fn attribute_data(&self, attr: u8) -> (r: Option<DlmsData>)
        ensures
            opt_view(r) == self@.attribute(attr),
    {
        match attr {
            1 => Some(logical_name_data(&self.logical_name)),
            2 => Some(DlmsData::DateTime(self.datetime.to_bytes())),
            3 => Some(DlmsData::Long(self.timezone)),
            4 => Some(DlmsData::Long(self.status as i16)),
            _ => None,
        }
    }

    /// Writes attribute `attr` from the value the A-XDR decoder produced
    /// (`None` where decoding failed).
    pub fn apply_attribute(&mut self, attr: u8, decoded: Option<DlmsData>) -> (r: Result<(), CosemObjectError>)
        ensures
            (r, final(self)@) == old(self)@.write(attr, opt_view(decoded)),
    {
        match attr {
            2 => match decoded {
                Some(DlmsData::DateTime(b)) => match CosemDateTime::from_bytes(&b) {
                    Some(dt) => {
                        self.datetime = dt;
                        Ok(())
                    },
                    None => Err(CosemObjectError::InvalidData),
                },
                _ => Err(CosemObjectError::InvalidData),
            },
            3 => match decoded {
                Some(DlmsData::Long(v)) => {
                    self.timezone = v;
                    Ok(())
                },
                _ => Err(CosemObjectError::InvalidData),
            },
            _ => Err(CosemObjectError::AttributeNotSupported(attr)),
        }
    }

    /// Invokes method `method_id`.  Adjusting the time (1) takes at least a
    /// date-time's twelve bytes, whose hour, minute and second give the
    /// offset; the clock's date-time is moved forward by it and the call is
    /// acknowledged with `00 00`.
    pub fn execute_action(&mut self, method_id: u8, data: &[u8]) -> (r: Result<Vec<u8>, CosemObjectError>)
        ensures
            (reply_view(r), final(self)@) == old(self)@.invoke(method_id, data@),
    {
        if method_id == 1 {
            if data.len() >= 12 {
                let secs = offset_seconds(data);
                self.datetime = shift_date_time(self.datetime, secs);
                let reply = vec![0x00u8, 0x00u8];
                assert(reply@ =~= seq![0u8, 0u8]);
                Ok(reply)
            } else {
                Err(CosemObjectError::InvalidData)
            }
        } else {
            Err(CosemObjectError::MethodNotSupported(method_id))
        }
    }
}

/// Reading the date-time attribute and writing it back sets a date-time
/// with the same wire bytes; a time zone written is read back.
pub proof fn lemma_datetime_read_back(v: ClockView, w: ClockView, tz: i16)
    ensures
        v.attribute(2) matches Some(d) && w.write(2, Some(d)).0 is Ok && date_time_wire(
            w.write(2, Some(d)).1.datetime,
        ) == date_time_wire(v.datetime),
        w.write(3, Some(DataView::Long(tz))).1.attribute(3) == Some(DataView::Long(tz)),
{
    crate::cosem::lemma_wire_date_time_wire(date_time_wire(v.datetime));
}

/// Moving a date-time whose time of day is in range forward by no time
/// keeps it; moving it by a whole day keeps the time of day and moves the
/// date to the next one.
pub proof fn lemma_shift_by_zero_and_a_day(dt: CosemDateTime)
    requires
        dt.year is Some && dt.month is Some && dt.day is Some,
        dt.hour matches Some(h) && h < 24,
        dt.minute matches Some(m) && m < 60,
        dt.second matches Some(s) && s < 60,
        dt.day_of_week is None,
    ensures
        shifted(dt, 0) == dt,
        shifted(dt, 86400).hour == dt.hour && shifted(dt, 86400).minute == dt.minute
            && shifted(dt, 86400).second == dt.second,
        (shifted(dt, 86400).year->0, shifted(dt, 86400).month->0, shifted(dt, 86400).day->0) == next_day(
            (dt.year->0, dt.month->0, dt.day->0),
        ),
{
    let h = dt.hour->0;
    let m = dt.minute->0;
    let s = dt.second->0;
    let t = h * 3600 + m * 60 + s;
    assert(0 <= t < 86400);
    assert(t / 86400 == 0 && t % 86400 == t);
    assert((t + 86400) / 86400 == 1 && (t + 86400) % 86400 == t);
    assert(t / 3600 == h && (t % 3600) / 60 == m && t % 60 == s) by (nonlinear_arith)
        requires
            t == h * 3600 + m * 60 + s,
            0 <= h < 24,
            0 <= m < 60,
            0 <= s < 60,
    ;
    assert(add_days((dt.year->0, dt.month->0, dt.day->0), 1) == next_day(add_days((dt.year->0, dt.month->0, dt.day->0), 0)));
}

} // verus!

