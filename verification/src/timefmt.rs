//! Wall-clock timestamps with second precision, held as plain calendar
//! fields, and their fixed-format serialization.
//!
//! The stored form is `YYYY-MM-DD HH:MM:SS` with zero padding, so that
//! lexical ordering of the stored strings matches chronological ordering.

use vstd::prelude::*;

verus! {

/// A timezone-aware observation time, reduced to its calendar fields.
#[derive(Clone, Copy, Debug, PartialEq, Eq, Structural)]
pub struct Timestamp {
    pub year: i32,
    pub month: u8,
    pub day: u8,
    pub hour: u8,
    pub minute: u8,
    pub second: u8,
}

/// The decimal digit character for `d`.
pub open spec fn digit_char(d: int) -> char {
    if d == 0 {
        '0'
    } else if d == 1 {
        '1'
    } else if d == 2 {
        '2'
    } else if d == 3 {
        '3'
    } else if d == 4 {
        '4'
    } else if d == 5 {
        '5'
    } else if d == 6 {
        '6'
    } else if d == 7 {
        '7'
    } else if d == 8 {
        '8'
    } else {
        '9'
    }
}

/// `n` written as exactly two decimal digits, zero padded.
pub open spec fn pad2_spec(n: int) -> Seq<char> {
    seq![digit_char(n / 10), digit_char(n % 10)]
}

/// `n` written as exactly four decimal digits, zero padded.
pub open spec fn pad4_spec(n: int) -> Seq<char> {
    seq![
        digit_char(n / 1000),
        digit_char((n / 100) % 10),
        digit_char((n / 10) % 10),
        digit_char(n % 10),
    ]
}

/// The one-character string for the decimal digit `d`.
fn digit_str(d: i32) -> (r: &'static str)
    requires
        0 <= d < 10,
    ensures
        r@ =~= seq![digit_char(d as int)],
{
    proof {
        reveal_strlit("0");
        reveal_strlit("1");
        reveal_strlit("2");
        reveal_strlit("3");
        reveal_strlit("4");
        reveal_strlit("5");
        reveal_strlit("6");
        reveal_strlit("7");
        reveal_strlit("8");
        reveal_strlit("9");
    }
    if d == 0 {
        "0"
    } else if d == 1 {
        "1"
    } else if d == 2 {
        "2"
    } else if d == 3 {
        "3"
    } else if d == 4 {
        "4"
    } else if d == 5 {
        "5"
    } else if d == 6 {
        "6"
    } else if d == 7 {
        "7"
    } else if d == 8 {
        "8"
    } else {
        "9"
    }
}

/// Appends `n` as two zero-padded decimal digits.
fn push_pad2(out: &mut String, n: u8)
    requires
        n < 100,
    ensures
        final(out)@ == old(out)@ + pad2_spec(n as int),
{
    out.append(digit_str((n / 10) as i32));
    out.append(digit_str((n % 10) as i32));
    proof {
        assert(out@ =~= old(out)@ + pad2_spec(n as int));
    }
}

/// Appends `n` as four zero-padded decimal digits.
fn push_pad4(out: &mut String, n: i32)
    requires
        0 <= n <= 9999,
    ensures
        final(out)@ == old(out)@ + pad4_spec(n as int),
{
    out.append(digit_str(n / 1000));
    out.append(digit_str((n / 100) % 10));
    out.append(digit_str((n / 10) % 10));
    out.append(digit_str(n % 10));
    proof {
        assert(out@ =~= old(out)@ + pad4_spec(n as int));
    }
}

impl Timestamp {
    /// Every field lies in the range that the calendar and the four-digit
    /// year of the stored format admit.
    pub open spec fn valid(self) -> bool {
        &&& 0 <= self.year <= 9999
        &&& 1 <= self.month <= 12
        &&& 1 <= self.day <= 31
        &&& self.hour < 24
        &&& self.minute < 60
        &&& self.second < 60
    }

    /// The fixed-format serialization `YYYY-MM-DD HH:MM:SS`.
    pub open spec fn format_spec(self) -> Seq<char> {
        pad4_spec(self.year as int) + seq!['-'] + pad2_spec(self.month as int) + seq!['-']
            + pad2_spec(self.day as int) + seq![' '] + pad2_spec(self.hour as int) + seq![':']
            + pad2_spec(self.minute as int) + seq![':'] + pad2_spec(self.second as int)
    }

    /// Builds a timestamp from raw calendar fields, rejecting exactly the
    /// ones that fall outside the representable ranges.
    pub fn from_fields(year: i32, month: u8, day: u8, hour: u8, minute: u8, second: u8) -> (r:
        Option<Timestamp>)
        ensures
            ({
                let t = Timestamp { year, month, day, hour, minute, second };
                if t.valid() {
                    r == Some(t)
                } else {
                    r is None
                }
            }),
    {
        if 0 <= year && year <= 9999 && 1 <= month && month <= 12 && 1 <= day && day <= 31 && hour
            < 24 && minute < 60 && second < 60 {
            Some(Timestamp { year, month, day, hour, minute, second })
        } else {
            None
        }
    }

    /// Serializes the timestamp as `YYYY-MM-DD HH:MM:SS`, second precision,
    /// zero padded so that lexical order matches chronological order.
    pub fn format(&self) -> (r: String)
        requires
            self.valid(),
        ensures
            r@ == self.format_spec(),
            r@.len() == 19,
    {
        proof {
            reveal_strlit("-");
            reveal_strlit(" ");
            reveal_strlit(":");
        }
        let mut out = String::new();
        push_pad4(&mut out, self.year);
        out.append("-");
        push_pad2(&mut out, self.month);
        out.append("-");
        push_pad2(&mut out, self.day);
        out.append(" ");
        push_pad2(&mut out, self.hour);
        out.append(":");
        push_pad2(&mut out, self.minute);
        out.append(":");
        push_pad2(&mut out, self.second);
        proof {
            assert(out@ =~= self.format_spec());
        }
        out
    }
}

/// Relies on `time::OffsetDateTime::now_utc` and its field getters `year`,
/// `month`, `day`, `hour`, `minute` and `second` for the current wall-clock
/// time in UTC. The getters' documentation bounds day to `1..=31`, hour to
/// `0..=23`, minute and second to `0..=59`; `month` is a twelve-variant
/// enumeration numbered from 1; the year of a representable date lies within
/// `-9999..=9999`.
#[verifier::external_body]
fn now_fields() -> (r: (i32, u8, u8, u8, u8, u8))
    ensures
        -9999 <= r.0 <= 9999,
        1 <= r.1 <= 12,
        1 <= r.2 <= 31,
        r.3 < 24,
        r.4 < 60,
        r.5 < 60,
{
    let t = time::OffsetDateTime::now_utc();
    (t.year(), t.month() as u8, t.day(), t.hour(), t.minute(), t.second())
}

/// Reads the current wall-clock time. A clock reading whose year falls
/// outside the four-digit range of the stored format (only possible for
/// years before 0) is replaced by the epoch instant.
pub fn current_timestamp() -> (r: Timestamp)
    ensures
        r.valid(),
{
    let (year, month, day, hour, minute, second) = now_fields();
    match Timestamp::from_fields(year, month, day, hour, minute, second) {
        Some(t) => t,
        None => Timestamp { year: 1970, month: 1, day: 1, hour: 0, minute: 0, second: 0 },
    }
}

} // verus!
