use vstd::prelude::*;
use vstd::arithmetic::div_mod::{lemma_fundamental_div_mod, lemma_mod_multiples_vanish};

verus! {

/// Seconds in one day.
pub const DAY_SECS: i64 = 86400;

/// The decimal digit character for `d`, which is below 10.
pub open spec fn digit_char(d: int) -> char {
    "0123456789"@[d]
}

/// `n`, below 100, written with exactly two decimal digits.
pub open spec fn two_digits(n: int) -> Seq<char> {
    seq![digit_char(n / 10), digit_char(n % 10)]
}

/// Hour and minute, `HH:MM`, of the wall clock that runs `offset` seconds
/// ahead of UTC, at `secs` seconds after the Unix epoch.
pub open spec fn clock_of(secs: int, offset: int) -> Seq<char> {
    let t = (secs + offset) % 86400;
    two_digits(t / 3600) + seq![':'] + two_digits((t % 3600) / 60)
}

/// Shown in place of a time when a message carries none.
pub open spec fn no_time() -> Seq<char> {
    seq!['-', '-', ':', '-', '-']
}

/// A local offset that a time zone can have: less than a day either way.
pub open spec fn valid_offset(offset: Option<i32>) -> bool {
    match offset {
        Some(o) => -86400 < o < 86400,
        None => true,
    }
}

/// The time shown for a message sent at `sent_at` milliseconds after the
/// epoch, when the local clock runs `offset` seconds ahead of UTC at that
/// instant. A missing or non-positive time shows as `--:--`; the
/// milliseconds are dropped before the time of day is taken. An instant
/// that has no local time (`offset` is `None`) shows as the epoch does in UTC.
pub open spec fn time_text(sent_at: Option<i64>, offset: Option<i32>) -> Seq<char> {
    match sent_at {
        Some(ms) => if ms > 0 {
            match offset {
                Some(o) => clock_of(ms / 1000, o as int),
                None => clock_of(0, 0),
            }
        } else {
            no_time()
        },
        None => no_time(),
    }
}

/// The latest instant, in seconds after the epoch, whose local time is
/// looked up without fail: about the year 190000, well inside chrono's range
/// of dates.
pub open spec fn lookup_limit() -> int {
    6_000_000_000_000
}

/// A message time that is positive and has a local time.
pub open spec fn timed(sent_at: Option<i64>) -> bool {
    match sent_at {
        Some(ms) => 0 < ms && ms / 1000 <= lookup_limit(),
        None => false,
    }
}

/// Relies on chrono's `Local` time zone (`TimeZone::timestamp_opt`, then
/// `FixedOffset::local_minus_utc`): the number of seconds that local time
/// runs ahead of UTC at `secs` seconds after the epoch, or `None` where
/// chrono cannot represent that instant. A `FixedOffset` is always less
/// than a day either way; `timestamp_opt` gives a single local time for
/// every instant that `DateTime::from_timestamp` accepts.
#[verifier::external_body]
fn local_offset_at(secs: i64) -> (r: Option<i32>)
    ensures
        valid_offset(r),
        0 <= secs <= lookup_limit() ==> r is Some,
{
    chrono::TimeZone::timestamp_opt(&chrono::Local, secs, 0).single().map(
        |dt| dt.offset().local_minus_utc(),
    )
}

fn push_two_digits(out: &mut String, n: u64)
    requires
        n < 100,
    ensures
        final(out)@ == old(out)@ + two_digits(n as int),
{
    let digits = "0123456789";
    proof {
        reveal_strlit("0123456789");
    }
    let hi = n / 10;
    let lo = n % 10;
    let a = digits.substring_char(hi as usize, hi as usize + 1);
    let b = digits.substring_char(lo as usize, lo as usize + 1);
    out.append(a);
    out.append(b);
    assert(final(out)@ =~= old(out)@ + two_digits(n as int));
}

/// Writes `HH:MM` for the wall clock `offset` seconds ahead of UTC, at
/// `secs` seconds after the epoch.
pub fn clock_text(secs: i64, offset: i32) -> (r: String)
    requires
        0 <= secs,
        -86400 < offset < 86400,
    ensures
        r@ == clock_of(secs as int, offset as int),
{
    let within_day: i64 = secs % DAY_SECS;
    let shifted: i64 = within_day + offset as i64 + DAY_SECS;
    let t: u64 = (shifted as u64) % 86400;
    proof {
        let q = secs as int / 86400;
        lemma_fundamental_div_mod(secs as int, 86400);
        lemma_mod_multiples_vanish(q - 1, shifted as int, 86400);
        assert(86400 * (q - 1) + shifted == secs + offset);
    }
    let mut r = String::new();
    push_two_digits(&mut r, t / 3600);
    r.append(":");
    proof {
        reveal_strlit(":");
    }
    push_two_digits(&mut r, (t % 3600) / 60);
    assert(r@ =~= clock_of(secs as int, offset as int));
    r
}

/// Renders the time of a message from its timestamp and the local offset at
/// that instant.
pub fn time_text_with_offset(sent_at: Option<i64>, offset: Option<i32>) -> (r: String)
    requires
        valid_offset(offset),
    ensures
        r@ == time_text(sent_at, offset),
{
    proof {
        reveal_strlit("--:--");
        assert("--:--"@ =~= no_time());
    }
    match sent_at {
        Some(ms) => if ms > 0 {
            match offset {
                Some(o) => clock_text(ms / 1000, o),
                None => clock_text(0, 0),
            }
        } else {
            String::from_str("--:--")
        },
        None => String::from_str("--:--"),
    }
}

/// The local offset to show a message's time with: looked up for a positive
/// timestamp, `None` otherwise.
pub fn offset_for_message(sent_at: Option<i64>) -> (r: Option<i32>)
    ensures
        valid_offset(r),
        timed(sent_at) ==> r is Some,
        (match sent_at {
            Some(ms) => ms <= 0,
            None => true,
        }) ==> r is None,
{
    match sent_at {
        Some(ms) => if ms > 0 {
            local_offset_at(ms / 1000)
        } else {
            None
        },
        None => None,
    }
}

} // verus!
