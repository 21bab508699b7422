//! Text forms of instants and dates: the clock time is computed here, the
//! RFC 3339 and display forms come from chrono.
use vstd::prelude::*;
use crate::text::{decimal, digit_char, push_decimal};
use crate::time::{UtcTime, second_of_day, time_of_day, valid_day};

verus! {

/// The RFC 3339 text that chrono's `DateTime<Utc>::to_rfc3339` gives for an instant.
pub uninterp spec fn chrono_rfc3339(secs: i64, nanos: u32) -> Seq<char>;

/// The text that chrono's `Display` for `DateTime<Utc>` gives for an instant.
pub uninterp spec fn chrono_datetime_display(secs: i64, nanos: u32) -> Seq<char>;

/// The text that chrono's `Display` for `NaiveDate` gives for a day counted from the Unix epoch.
pub uninterp spec fn chrono_date_display(day: i64) -> Seq<char>;

/// Calls chrono's `DateTime::<Utc>::from_timestamp` and `to_rfc3339`; the contract claims
/// only that the text is chrono's for these two numbers (`from_timestamp` gives `Some` on
/// every instant of chrono's range, which `wf` demands).
#[verifier::external_body]
pub(crate) fn rfc3339(t: &UtcTime) -> (s: String)
    requires
        t.wf(),
    ensures
        s@ == chrono_rfc3339(t.secs, t.nanos),
{
    chrono::DateTime::<chrono::Utc>::from_timestamp(t.secs, t.nanos).unwrap().to_rfc3339()
}

/// Calls chrono's `DateTime::<Utc>::from_timestamp` and formats the result with its
/// `Display`; the contract claims only that the text is chrono's for these two numbers.
#[verifier::external_body]
pub(crate) fn datetime_display(t: &UtcTime) -> (s: String)
    requires
        t.wf(),
    ensures
        s@ == chrono_datetime_display(t.secs, t.nanos),
{
    let dt = chrono::DateTime::<chrono::Utc>::from_timestamp(t.secs, t.nanos).unwrap();
    format!("{}", dt)
}

/// Calls chrono's `NaiveDate::from_epoch_days` and formats the date with its `Display`;
/// the contract claims only that the text is chrono's for this day (`from_epoch_days`
/// gives `Some` on every day of chrono's range, which `valid_day` demands).
#[verifier::external_body]
pub(crate) fn date_display(day: i64) -> (s: String)
    requires
        valid_day(day),
    ensures
        s@ == chrono_date_display(day),
{
    let date = chrono::NaiveDate::from_epoch_days(day as i32).unwrap();
    format!("{}", date)
}

/// Two decimal digits of `n` (0 ..= 99), with a leading zero below ten.
pub open spec fn two_digits(n: int) -> Seq<char> {
    seq![digit_char(n / 10), digit_char(n % 10)]
}

/// `%H:%M:%S` of an instant, as chrono writes it: during a leap second the seconds read 60.
pub open spec fn clock(t: UtcTime) -> Seq<char> {
    let d = second_of_day(t.secs as int);
    let second = d % 60 + if t.in_leap_second() { 1int } else { 0int };
    two_digits(d / 3600) + seq![':'] + two_digits((d % 3600) / 60) + seq![':'] + two_digits(second)
}

fn push_two_digits(s: &mut String, n: i64)
    requires
        0 <= n < 100,
    ensures
        final(s)@ == old(s)@ + two_digits(n as int),
{
    let ghost before = s@;
    if n < 10 {
        push_decimal(s, 0);
    }
    push_decimal(s, n as u64);
    proof {
        reveal_with_fuel(decimal, 2);
        assert(s@ =~= before + two_digits(n as int));
    }
}

/// Appends `%H:%M:%S UTC` of `t` to `s`, as chrono's `format("%H:%M:%S UTC")` writes it.
pub fn push_clock(s: &mut String, t: &UtcTime)
    requires
        t.wf(),
    ensures
        final(s)@ == old(s)@ + clock(*t) + " UTC"@,
{
    let ghost before = s@;
    let d = time_of_day(t.secs);
    let second = if t.nanos >= 1_000_000_000 { d % 60 + 1 } else { d % 60 };
    push_two_digits(s, d / 3600);
    s.append(":");
    push_two_digits(s, (d % 3600) / 60);
    s.append(":");
    push_two_digits(s, second);
    s.append(" UTC");
    proof {
        reveal_strlit(":");
        assert(s@ =~= before + clock(*t) + " UTC"@);
    }
}

} // verus!
