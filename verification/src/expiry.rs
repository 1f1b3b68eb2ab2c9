//! The time at which a token expires, given as days, hours and minutes from
//! now: `1d4h0m`.

use vstd::prelude::*;
use vstd::string::StrSliceExecFns;

verus! {

/// The pattern of an expiry: three numbers, each followed by its unit.
pub const EXPIRY_PATTERN: &'static str = "(?<days>\\d+)d(?<hours>\\d+)h(?<minutes>\\d+)m";

/// The first second that the calendar holds, as seconds since 1970.
pub const FIRST_SECOND: i64 = -377705116800;

/// The last second that the calendar holds, as seconds since 1970.
pub const LAST_SECOND: i64 = 253402300799;

/// The text that the group named `group` takes in the leftmost match of
/// `pattern` in `text`; nothing where the pattern is no pattern, matches
/// nowhere or has no such group in the match.
pub uninterp spec fn regex_named_group(pattern: Seq<char>, text: Seq<char>, group: Seq<char>) -> Option<
    Seq<char>,
>;

/// Calls `Regex::new` and `Regex::captures` of `regex`, then
/// `Captures::name` and `Match::as_str`.
///
/// Trusted: what a group takes depends on pattern, text and name alone.
#[verifier::external_body]
fn find_named_group(pattern: &str, text: &str, group: &str) -> (found: Option<String>)
    ensures
        match found {
            Some(part) => regex_named_group(pattern@, text@, group@) == Some(part@),
            None => regex_named_group(pattern@, text@, group@) is None,
        },
{
    let re = regex::Regex::new(pattern).ok()?;
    let caps = re.captures(text)?;
    caps.name(group).map(|m| m.as_str().to_string())
}

/// Whether `c` is one of the digits `0` to `9`.
pub open spec fn is_digit(c: char) -> bool {
    '0' <= c <= '9'
}

/// The number that a text of digits writes in base ten.
pub open spec fn digits_value(text: Seq<char>) -> int
    decreases text.len(),
{
    if text.len() == 0 {
        0
    } else {
        10 * digits_value(text.drop_last()) + (text.last() as int - '0' as int)
    }
}

/// The number that `text` writes in base ten, where it is one digit or more
/// and nothing else.
pub open spec fn decimal_value(text: Seq<char>) -> Option<int> {
    if text.len() > 0 && forall|i: int| 0 <= i < text.len() ==> is_digit(#[trigger] text[i]) {
        Some(digits_value(text))
    } else {
        None
    }
}

/// A number does not get smaller when digits are written behind it.
proof fn lemma_digits_value_grows(text: Seq<char>, n: int)
    requires
        0 <= n <= text.len(),
        forall|i: int| 0 <= i < text.len() ==> is_digit(#[trigger] text[i]),
    ensures
        0 <= digits_value(text.take(n)) <= digits_value(text),
    decreases text.len() - n,
{
    if n == text.len() {
        assert(text.take(n) =~= text);
        lemma_digits_value_nonnegative(text);
    } else {
        lemma_digits_value_grows(text, n + 1);
        assert(text.take(n + 1).drop_last() =~= text.take(n));
        lemma_digits_value_nonnegative(text.take(n));
    }
}

/// A text of digits writes no negative number.
proof fn lemma_digits_value_nonnegative(text: Seq<char>)
    requires
        forall|i: int| 0 <= i < text.len() ==> is_digit(#[trigger] text[i]),
    ensures
        0 <= digits_value(text),
    decreases text.len(),
{
    if text.len() > 0 {
        lemma_digits_value_nonnegative(text.drop_last());
    }
}

/// A text that writes a number writes none below zero.
proof fn lemma_decimal_value_nonnegative(text: Seq<char>)
    ensures
        decimal_value(text) matches Some(value) ==> 0 <= value,
{
    if decimal_value(text) is Some {
        lemma_digits_value_nonnegative(text);
    }
}

/// Reads a number in base ten. A text that is empty, holds anything but
/// digits, or writes a number above the largest `i64` gives nothing.
pub fn parse_decimal(text: &str) -> (r: Option<i64>)
    ensures
        r == match decimal_value(text@) {
            Some(value) => if value <= i64::MAX {
                Some(value as i64)
            } else {
                None
            },
            None => None,
        },
{
    let len = text.unicode_len();
    if len == 0 {
        return None;
    }
    let mut value: i64 = 0;
    let mut i: usize = 0;
    while i < len
        invariant
            i <= len,
            len == text@.len(),
            forall|j: int| 0 <= j < i ==> is_digit(#[trigger] text@[j]),
            value == digits_value(text@.take(i as int)),
            0 <= value,
        decreases len - i,
    {
        let c = text.get_char(i);
        if c < '0' || c > '9' {
            return None;
        }
        let digit: i64 = (c as u32 - '0' as u32) as i64;
        proof {
            assert(text@.take(i + 1).drop_last() =~= text@.take(i as int));
            assert(text@.take(i + 1).last() == c);
        }
        if value > (i64::MAX - digit) / 10 {
            proof {
                if forall|j: int| 0 <= j < text@.len() ==> is_digit(#[trigger] text@[j]) {
                    lemma_digits_value_grows(text@, i + 1);
                }
            }
            return None;
        }
        value = value * 10 + digit;
        i += 1;
    }
    proof {
        assert(text@.take(len as int) =~= text@);
    }
    Some(value)
}

/// The second that lies the given days, hours and minutes after `now`.
pub open spec fn expiry_second(now: int, days: int, hours: int, minutes: int) -> int {
    now + days * 86400 + hours * 3600 + minutes * 60
}

/// Whether the step from `now` can be taken: each part is a span of time
/// that an `i64` counts in seconds, and neither end leaves the calendar.
pub open spec fn expiry_in_range(now: int, days: int, hours: int, minutes: int) -> bool {
    &&& 0 <= days && days * 86400 <= i64::MAX
    &&& 0 <= hours && hours * 3600 <= i64::MAX
    &&& 0 <= minutes && minutes * 60 <= i64::MAX
    &&& FIRST_SECOND <= now
    &&& expiry_second(now, days, hours, minutes) <= LAST_SECOND
}

/// Adds days, hours and minutes to `now`, a count of seconds since 1970.
pub fn expiry_after(now: i64, days: i64, hours: i64, minutes: i64) -> (r: Option<i64>)
    ensures
        r == if expiry_in_range(now as int, days as int, hours as int, minutes as int) {
            Some(expiry_second(now as int, days as int, hours as int, minutes as int) as i64)
        } else {
            None
        },
{
    if days < 0 || hours < 0 || minutes < 0 || now < FIRST_SECOND || now > LAST_SECOND {
        return None;
    }
    if days > i64::MAX / 86400 || hours > i64::MAX / 3600 || minutes > i64::MAX / 60 {
        return None;
    }
    let room: i64 = LAST_SECOND - now;
    let day_seconds: i64 = days * 86400;
    if day_seconds > room {
        return None;
    }
    let room: i64 = room - day_seconds;
    let hour_seconds: i64 = hours * 3600;
    if hour_seconds > room {
        return None;
    }
    let room: i64 = room - hour_seconds;
    let minute_seconds: i64 = minutes * 60;
    if minute_seconds > room {
        return None;
    }
    Some(now + day_seconds + hour_seconds + minute_seconds)
}

/// The three numbers of the leftmost expiry in `dt`, as they are written.
pub open spec fn expiry_fields(dt: Seq<char>) -> Option<(Seq<char>, Seq<char>, Seq<char>)> {
    match (
        regex_named_group(EXPIRY_PATTERN@, dt, "days"@),
        regex_named_group(EXPIRY_PATTERN@, dt, "hours"@),
        regex_named_group(EXPIRY_PATTERN@, dt, "minutes"@),
    ) {
        (Some(days), Some(hours), Some(minutes)) => Some((days, hours, minutes)),
        _ => None,
    }
}

/// The second that lies the written days, hours and minutes after `now`,
/// where each number can be read and the step can be taken.
pub open spec fn expiry_of_fields(
    days: Seq<char>,
    hours: Seq<char>,
    minutes: Seq<char>,
    now: int,
) -> Option<int> {
    match (decimal_value(days), decimal_value(hours), decimal_value(minutes)) {
        (Some(d), Some(h), Some(m)) => if expiry_in_range(now, d, h, m) {
            Some(expiry_second(now, d, h, m))
        } else {
            None
        },
        _ => None,
    }
}

/// Reads the three numbers of an expiry and adds them to `now`.
pub fn expiry_from_fields(days: &str, hours: &str, minutes: &str, now: i64) -> (r: Option<i64>)
    ensures
        r == match expiry_of_fields(days@, hours@, minutes@, now as int) {
            Some(second) => Some(second as i64),
            None => None::<i64>,
        },
{
    proof {
        lemma_decimal_value_nonnegative(days@);
        lemma_decimal_value_nonnegative(hours@);
        lemma_decimal_value_nonnegative(minutes@);
    }
    let d = parse_decimal(days);
    let h = parse_decimal(hours);
    let m = parse_decimal(minutes);
    match (d, h, m) {
        (Some(d), Some(h), Some(m)) => expiry_after(now, d, h, m),
        _ => None,
    }
}

/// Whether `verify_datetime` can answer for `dt`: it holds no expiry at
/// all, or one with numbers that can be read and a step that can be taken.
pub open spec fn expiry_answerable(dt: Seq<char>, now: int) -> bool {
    match expiry_fields(dt) {
        Some((days, hours, minutes)) => expiry_of_fields(days, hours, minutes, now) is Some,
        None => true,
    }
}

/// Reads the leftmost expiry in `dt`, such as `1d4h0m`, and returns the
/// second that lies so far after `now`, both counted since 1970.
pub fn verify_datetime(dt: &str, now: i64) -> (r: Result<i64, &'static str>)
    requires
        expiry_answerable(dt@, now as int),
    ensures
        match expiry_fields(dt@) {
            Some((days, hours, minutes)) => r matches Ok(second) && Some(second as int)
                == expiry_of_fields(days, hours, minutes, now as int),
            None => r matches Err(e) && e@ == "Invalid exp format."@,
        },
{
    let days = find_named_group(EXPIRY_PATTERN, dt, "days");
    let hours = find_named_group(EXPIRY_PATTERN, dt, "hours");
    let minutes = find_named_group(EXPIRY_PATTERN, dt, "minutes");
    match (days, hours, minutes) {
        (Some(days), Some(hours), Some(minutes)) => {
            match expiry_from_fields(days.as_str(), hours.as_str(), minutes.as_str(), now) {
                Some(second) => Ok(second),
                None => Err("Invalid exp format."),
            }
        },
        _ => Err("Invalid exp format."),
    }
}

/// Answers as `verify_datetime` does wherever that has an answer, and gives
/// nothing for an expiry with a number that cannot be read or a step that
/// cannot be taken.
pub fn try_verify_datetime(dt: &str, now: i64) -> (r: Option<Result<i64, &'static str>>)
    ensures
        r is Some <==> expiry_answerable(dt@, now as int),
        r matches Some(answer) ==> match expiry_fields(dt@) {
            Some((days, hours, minutes)) => answer matches Ok(second) && Some(second as int)
                == expiry_of_fields(days, hours, minutes, now as int),
            None => answer matches Err(e) && e@ == "Invalid exp format."@,
        },
{
    let days = find_named_group(EXPIRY_PATTERN, dt, "days");
    let hours = find_named_group(EXPIRY_PATTERN, dt, "hours");
    let minutes = find_named_group(EXPIRY_PATTERN, dt, "minutes");
    let answerable = match (days, hours, minutes) {
        (Some(days), Some(hours), Some(minutes)) => expiry_from_fields(
            days.as_str(),
            hours.as_str(),
            minutes.as_str(),
            now,
        ).is_some(),
        _ => true,
    };
    if answerable {
        Some(verify_datetime(dt, now))
    } else {
        None
    }
}

} // verus!
