//! A UTC timestamp captured once per invocation, and its two derived compact
//! forms: the date `YYYYMMDD` and the date-time `YYYYMMDDTHHMMSS[Z]`.

use vstd::prelude::*;
use vstd::string::StringExecFns;

verus! {

/// A calendar timestamp in UTC, held as plain field values.
pub struct Timestamp {
    pub year: u16,
    pub month: u8,
    pub day: u8,
    pub hour: u8,
    pub minute: u8,
    pub second: u8,
}

impl Timestamp {
    /// Well-formedness: every field fits its calendar range, and the year
    /// fits four decimal digits.
    pub open spec fn wf(self) -> bool {
        self.year <= 9999 && 1 <= self.month <= 12 && 1 <= self.day <= 31 && self.hour <= 23
            && self.minute <= 59 && self.second <= 59
    }

    /// Runtime check of [`Timestamp::wf`].
    pub fn is_wf(&self) -> (r: bool)
        ensures
            r == self.wf(),
    {
        self.year <= 9999 && 1 <= self.month && self.month <= 12 && 1 <= self.day && self.day <= 31
            && self.hour <= 23 && self.minute <= 59 && self.second <= 59
    }
}

/// The decimal digit character for a value below ten.
pub open spec fn digit_char(v: int) -> char {
    if v == 0 {
        '0'
    } else if v == 1 {
        '1'
    } else if v == 2 {
        '2'
    } else if v == 3 {
        '3'
    } else if v == 4 {
        '4'
    } else if v == 5 {
        '5'
    } else if v == 6 {
        '6'
    } else if v == 7 {
        '7'
    } else if v == 8 {
        '8'
    } else {
        '9'
    }
}

/// A value below one hundred written as exactly two decimal digits.
pub open spec fn two_digits(v: int) -> Seq<char> {
    seq![digit_char(v / 10), digit_char(v % 10)]
}

/// The compact date form `YYYYMMDD`.
pub open spec fn spec_date(ts: Timestamp) -> Seq<char> {
    two_digits(ts.year as int / 100) + two_digits(ts.year as int % 100) + two_digits(
        ts.month as int,
    ) + two_digits(ts.day as int)
}

/// The compact time-of-day form `HHMMSS`.
pub open spec fn spec_time(ts: Timestamp) -> Seq<char> {
    two_digits(ts.hour as int) + two_digits(ts.minute as int) + two_digits(ts.second as int)
}

/// The compact date-time form `YYYYMMDDTHHMMSS`.
pub open spec fn spec_datetime(ts: Timestamp) -> Seq<char> {
    spec_date(ts) + seq!['T'] + spec_time(ts)
}

/// The compact date-time form with its UTC marker, `YYYYMMDDTHHMMSSZ`.
pub open spec fn spec_datetime_z(ts: Timestamp) -> Seq<char> {
    spec_datetime(ts) + seq!['Z']
}

/// The one-character string for a decimal digit.
fn digit_str(d: u8) -> (r: &'static str)
    requires
        d < 10,
    ensures
        r@.len() == 1,
        r@[0] == digit_char(d as int),
{
    if d == 0 {
        proof {
            reveal_strlit("0");
        }
        "0"
    } else if d == 1 {
        proof {
            reveal_strlit("1");
        }
        "1"
    } else if d == 2 {
        proof {
            reveal_strlit("2");
        }
        "2"
    } else if d == 3 {
        proof {
            reveal_strlit("3");
        }
        "3"
    } else if d == 4 {
        proof {
            reveal_strlit("4");
        }
        "4"
    } else if d == 5 {
        proof {
            reveal_strlit("5");
        }
        "5"
    } else if d == 6 {
        proof {
            reveal_strlit("6");
        }
        "6"
    } else if d == 7 {
        proof {
            reveal_strlit("7");
        }
        "7"
    } else if d == 8 {
        proof {
            reveal_strlit("8");
        }
        "8"
    } else {
        proof {
            reveal_strlit("9");
        }
        "9"
    }
}

/// Appends a value below one hundred as exactly two decimal digits.
fn push_two(s: &mut String, v: u8)
    requires
        v < 100,
    ensures
        final(s)@ == old(s)@ + two_digits(v as int),
{
    let hi = digit_str(v / 10);
    let lo = digit_str(v % 10);
    s.append(hi);
    s.append(lo);
    proof {
        assert(s@ =~= old(s)@ + two_digits(v as int));
    }
}

/// Formats the compact date `YYYYMMDD`.
pub fn format_date(ts: &Timestamp) -> (r: String)
    requires
        ts.wf(),
    ensures
        r@ == spec_date(*ts),
        r@.len() == 8,
{
    let mut r = String::new();
    push_two(&mut r, (ts.year / 100) as u8);
    push_two(&mut r, (ts.year % 100) as u8);
    push_two(&mut r, ts.month);
    push_two(&mut r, ts.day);
    proof {
        assert(r@ =~= spec_date(*ts));
    }
    r
}

/// Formats the compact date-time `YYYYMMDDTHHMMSS`.
pub fn format_datetime(ts: &Timestamp) -> (r: String)
    requires
        ts.wf(),
    ensures
        r@ == spec_datetime(*ts),
        r@.len() == 15,
{
    let mut r = format_date(ts);
    r.append("T");
    push_two(&mut r, ts.hour);
    push_two(&mut r, ts.minute);
    push_two(&mut r, ts.second);
    proof {
        reveal_strlit("T");
        assert(r@ =~= spec_datetime(*ts));
    }
    r
}

/// Formats the compact date-time with its UTC marker, `YYYYMMDDTHHMMSSZ`.
pub fn format_datetime_z(ts: &Timestamp) -> (r: String)
    requires
        ts.wf(),
    ensures
        r@ == spec_datetime_z(*ts),
        r@.len() == 16,
{
    let mut r = format_datetime(ts);
    r.append("Z");
    proof {
        reveal_strlit("Z");
        assert(r@ =~= spec_datetime_z(*ts));
    }
    r
}

} // verus!
