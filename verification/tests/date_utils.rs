use bbc_news_cli::date_utils::humanize_elapsed;
use bbc_news_cli::date_utils::humanize_time;
use chrono::Duration;
use chrono::Utc;

#[test]
fn test_humanize_recent() {
    let now = Utc::now();

    // Just now
    let recent = (now - Duration::seconds(30)).format("%Y-%m-%d %H:%M:%S").to_string();
    assert_eq!(humanize_time(&recent, now.timestamp()), "just now");

    // 5 minutes ago
    let mins = (now - Duration::minutes(5)).format("%Y-%m-%d %H:%M:%S").to_string();
    assert_eq!(humanize_time(&mins, now.timestamp()), "5 minutes ago");
}

#[test]
fn test_humanize_hours() {
    let now = Utc::now();
    let hours = (now - Duration::hours(3)).format("%Y-%m-%d %H:%M:%S").to_string();
    assert_eq!(humanize_time(&hours, now.timestamp()), "3 hours ago");
}

#[test]
fn test_humanize_days() {
    let now = Utc::now();
    let yesterday = (now - Duration::days(1)).format("%Y-%m-%d %H:%M:%S").to_string();
    assert_eq!(humanize_time(&yesterday, now.timestamp()), "yesterday");

    let days = (now - Duration::days(5)).format("%Y-%m-%d %H:%M:%S").to_string();
    assert_eq!(humanize_time(&days, now.timestamp()), "5 days ago");
}

#[test]
fn test_invalid_date() {
    let invalid = "invalid date";
    assert_eq!(humanize_time(invalid, Utc::now().timestamp()), "invalid date");
}

#[test]
fn humanize_against_a_fixed_clock() {
    // 2024-01-01 00:00:00 UTC is 1704067200 seconds after the epoch.
    let then = "2024-01-01 00:00:00";
    let t0: i64 = 1_704_067_200;
    assert_eq!(humanize_time(then, t0), "just now");
    assert_eq!(humanize_time(then, t0 + 59), "just now");
    assert_eq!(humanize_time(then, t0 + 60), "1 minute ago");
    assert_eq!(humanize_time(then, t0 + 119), "1 minute ago");
    assert_eq!(humanize_time(then, t0 + 120), "2 minutes ago");
    assert_eq!(humanize_time(then, t0 + 3599), "59 minutes ago");
    assert_eq!(humanize_time(then, t0 + 3600), "1 hour ago");
    assert_eq!(humanize_time(then, t0 + 2 * 3600), "2 hours ago");
    assert_eq!(humanize_time(then, t0 + 86_399), "23 hours ago");
    assert_eq!(humanize_time(then, t0 + 86_400), "yesterday");
    assert_eq!(humanize_time(then, t0 + 2 * 86_400), "2 days ago");
    assert_eq!(humanize_time(then, t0 + 6 * 86_400), "6 days ago");
    assert_eq!(humanize_time(then, t0 + 7 * 86_400), "1 week ago");
    assert_eq!(humanize_time(then, t0 + 13 * 86_400), "1 week ago");
    assert_eq!(humanize_time(then, t0 + 14 * 86_400), "2 weeks ago");
    assert_eq!(humanize_time(then, t0 + 29 * 86_400), "4 weeks ago");
    assert_eq!(humanize_time(then, t0 + 30 * 86_400), "1 month ago");
    assert_eq!(humanize_time(then, t0 + 60 * 86_400), "2 months ago");
    assert_eq!(humanize_time(then, t0 + 364 * 86_400), "12 months ago");
    assert_eq!(humanize_time(then, t0 + 365 * 86_400), "1 year ago");
    assert_eq!(humanize_time(then, t0 + 730 * 86_400), "2 years ago");
}

#[test]
fn a_date_in_the_future_is_just_now() {
    assert_eq!(humanize_time("2024-01-01 00:00:00", 1_704_067_200 - 5000), "just now");
    assert_eq!(humanize_elapsed(-1), "just now");
    assert_eq!(humanize_elapsed(i128::MIN), "just now");
}

#[test]
fn elapsed_time_at_the_limits_of_the_clock() {
    assert_eq!(humanize_time("1970-01-01 00:00:00", i64::MAX), "292471208677 years ago");
    assert_eq!(humanize_elapsed(0), "just now");
    assert_eq!(humanize_elapsed(100 * 365 * 86_400), "100 years ago");
}

#[test]
fn text_that_is_no_sortable_date_is_returned() {
    assert_eq!(humanize_time("", 0), "");
    assert_eq!(humanize_time("2024-13-01 00:00:00", 0), "2024-13-01 00:00:00");
    assert_eq!(humanize_time("Wed, 18 Feb 2015 23:16:09 GMT", 0), "Wed, 18 Feb 2015 23:16:09 GMT");
}
