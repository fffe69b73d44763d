//! Dates as the feeds write them, and as a reader wants to see them.
//!
//! Parsing and rendering of calendar dates is done by `chrono`; what this
//! module states of those calls is trusted, not proved.

use chrono::DateTime;
use crate::text::decimal;
use crate::text::decimal_digits;
use crate::text::optional_text;
use std::fmt::Write;
use vstd::prelude::*;
use vstd::string::StringExecFns;

verus! {

/// The date-time that `chrono` parses from `date` as an RFC 2822 timestamp,
/// rendered in its own offset by the strftime pattern `pattern`. `None`
/// where `date` is no such timestamp or the pattern cannot be rendered.
pub uninterp spec fn rfc2822_rendered(date: Seq<char>, pattern: Seq<char>) -> Option<Seq<char>>;

/// The seconds since the Unix epoch of the date-time that `chrono` parses
/// from `text` by the strftime pattern `pattern`; `None` where `text` does
/// not match.
pub uninterp spec fn parsed_timestamp(text: Seq<char>, pattern: Seq<char>) -> Option<i64>;

/// `DateTime::parse_from_rfc2822`, then `DateTime::format` written into a
/// string. Trusted: the result is a function of the two texts alone.
#[verifier::external_body]
pub(crate) fn render_rfc2822(date: &str, pattern: &str) -> (rendered: Option<String>)
    ensures
        optional_text(rendered) == rfc2822_rendered(date@, pattern@),
{
    let parsed = DateTime::parse_from_rfc2822(date).ok()?;
    let mut out = String::new();
    write!(out, "{}", parsed.format(pattern)).ok()?;
    Some(out)
}

/// `DateTime::parse_from_str`, then `DateTime::timestamp`. Trusted: the
/// result is a function of the two texts alone.
#[verifier::external_body]
pub(crate) fn parse_timestamp(text: &str, pattern: &str) -> (seconds: Option<i64>)
    ensures
        seconds == parsed_timestamp(text@, pattern@),
{
    DateTime::parse_from_str(text, pattern).ok().map(|parsed| parsed.timestamp())
}

/// The pattern of a sortable date: `YYYY-MM-DD HH:MM:SS`.
pub open spec fn sortable_pattern() -> Seq<char> {
    "%Y-%m-%d %H:%M:%S"@
}

/// A publish date in sortable form: an RFC 2822 timestamp is rewritten as
/// `YYYY-MM-DD HH:MM:SS`, and any other text stays as it is.
pub open spec fn normalized_date(date: Seq<char>) -> Seq<char> {
    match rfc2822_rendered(date, sortable_pattern()) {
        Some(sortable) => sortable,
        None => date,
    }
}

/// Rewrites an RFC 2822 publish date in sortable form; text that is no such
/// date passes through unchanged.
pub fn format_date(date_str: &str) -> (out: String)
    ensures
        out@ == normalized_date(date_str@),
        rfc2822_rendered(date_str@, sortable_pattern()) is None ==> out@ == date_str@,
{
    match render_rfc2822(date_str, "%Y-%m-%d %H:%M:%S") {
        Some(sortable) => sortable,
        None => date_str.to_owned(),
    }
}

/// The pattern of a sortable date with a numeric offset behind it.
pub open spec fn sortable_pattern_with_offset() -> Seq<char> {
    "%Y-%m-%d %H:%M:%S %z"@
}

/// An elapsed time in words, from whole seconds. Less than a minute, and
/// any time in the future, is "just now"; then minutes, hours, "yesterday",
/// days, weeks of seven days, months of thirty days and years of 365 days,
/// each rounded down.
pub open spec fn humanized(seconds: int) -> Seq<char> {
    let minutes = seconds / 60;
    let hours = seconds / 3600;
    let days = seconds / 86400;
    if seconds < 60 {
        "just now"@
    } else if minutes < 60 {
        if minutes == 1 {
            "1 minute ago"@
        } else {
            decimal_digits(minutes as nat) + " minutes ago"@
        }
    } else if hours < 24 {
        if hours == 1 {
            "1 hour ago"@
        } else {
            decimal_digits(hours as nat) + " hours ago"@
        }
    } else if days == 1 {
        "yesterday"@
    } else if days < 7 {
        decimal_digits(days as nat) + " days ago"@
    } else if days < 30 {
        if days / 7 == 1 {
            "1 week ago"@
        } else {
            decimal_digits((days / 7) as nat) + " weeks ago"@
        }
    } else if days < 365 {
        if days / 30 == 1 {
            "1 month ago"@
        } else {
            decimal_digits((days / 30) as nat) + " months ago"@
        }
    } else {
        if days / 365 == 1 {
            "1 year ago"@
        } else {
            decimal_digits((days / 365) as nat) + " years ago"@
        }
    }
}

/// A sortable date, read as UTC, as the time elapsed at `now`, in words.
/// Text that is no sortable date stays as it is.
pub open spec fn humanized_time(date: Seq<char>, now: i64) -> Seq<char> {
    match parsed_timestamp(date + " +0000"@, sortable_pattern_with_offset()) {
        Some(since) => humanized(now - since),
        None => date,
    }
}

/// A count with its unit, such as "5 minutes ago".
fn counted(count: u128, unit: &str) -> (text: String)
    ensures
        text@ == decimal_digits(count as nat) + unit@,
{
    let mut text = decimal(count);
    text.append(unit);
    text
}

/// An elapsed time in words, from whole seconds.
pub fn humanize_elapsed(seconds: i128) -> (text: String)
    ensures
        text@ == humanized(seconds as int),
{
    if seconds < 60 {
        return String::from_str("just now");
    }
    let seconds: u128 = seconds as u128;
    let minutes: u128 = seconds / 60;
    let hours: u128 = seconds / 3600;
    let days: u128 = seconds / 86400;
    if minutes < 60 {
        if minutes == 1 {
            String::from_str("1 minute ago")
        } else {
            counted(minutes, " minutes ago")
        }
    } else if hours < 24 {
        if hours == 1 {
            String::from_str("1 hour ago")
        } else {
            counted(hours, " hours ago")
        }
    } else if days == 1 {
        String::from_str("yesterday")
    } else if days < 7 {
        counted(days, " days ago")
    } else if days < 30 {
        let weeks: u128 = days / 7;
        if weeks == 1 {
            String::from_str("1 week ago")
        } else {
            counted(weeks, " weeks ago")
        }
    } else if days < 365 {
        let months: u128 = days / 30;
        if months == 1 {
            String::from_str("1 month ago")
        } else {
            counted(months, " months ago")
        }
    } else {
        let years: u128 = days / 365;
        if years == 1 {
            String::from_str("1 year ago")
        } else {
            counted(years, " years ago")
        }
    }
}

/// Turns a sortable date, read as UTC, into the time elapsed at `now`
/// (seconds since the epoch), in words such as "just now", "5 minutes ago"
/// or "yesterday". Text that is no sortable date is returned as it is.
pub fn humanize_time(date_str: &str, now: i64) -> (text: String)
    ensures
        text@ == humanized_time(date_str@, now),
{
    let mut stamped = String::from_str(date_str);
    stamped.append(" +0000");
    match parse_timestamp(stamped.as_str(), "%Y-%m-%d %H:%M:%S %z") {
        Some(since) => humanize_elapsed(now as i128 - since as i128),
        None => date_str.to_owned(),
    }
}

} // verus!
