use bili_sync::config::{
    ConcurrentDownloadLimit, ConcurrentLimit, NFOTimeType, SkipOption, Trigger,
    UpperAutoManageOption,
};
use bili_sync::number::{parse_i64, NumberError};
use bili_sync::text::{join, push_decimal, replace_all, str_contains, str_eq};
use bili_sync::time::{datetime_to_text, days_between, Timestamp, MAX_SECS, MIN_SECS};

fn decimal(n: i64) -> String {
    let mut text = String::new();
    push_decimal(&mut text, n);
    text
}

#[test]
fn integers_are_read_back_from_their_texts() {
    for n in [0, 7, -7, 10, 1234567890, i64::MAX, i64::MIN, -9223372036854775807] {
        assert_eq!(decimal(n), n.to_string());
        assert_eq!(parse_i64(&decimal(n)), Ok(n));
    }
}

#[test]
fn integers_are_read_like_the_standard_library_does() {
    for text in [
        "", "+", "-", "+5", "-0", "007", " 1", "1 ", "1_0", "--1", "9223372036854775807",
        "9223372036854775808", "-9223372036854775808", "-9223372036854775809",
        "99999999999999999999", "+9223372036854775807", "１", "0x10", "18446744073709551616",
        "9223372036854775808x", "-x", "99999999999999999999x", "-99999999999999999999",
        "-9223372036854775809x", "-9223372036854775808x", "922337203685477580x", "+-1",
        "9223372036854775807０", "99999999999999999999999999999999999999999999999999999999",
        "1234567890123456789", "0000000000000000000000000000000000000000000000000000000012",
    ] {
        assert_eq!(
            parse_i64(text).map_err(|error| error.message().to_string()),
            text.parse::<i64>().map_err(|error| error.to_string()),
            "{}",
            text
        );
    }
    assert_eq!(parse_i64(""), Err(NumberError::Empty));
    assert_eq!(parse_i64("-"), Err(NumberError::InvalidDigit));
    assert_eq!(parse_i64("9223372036854775808"), Err(NumberError::PosOverflow));
    assert_eq!(parse_i64("-9223372036854775809"), Err(NumberError::NegOverflow));
}

#[test]
fn texts_are_searched_joined_and_replaced() {
    assert!(str_eq("日本", "日本"));
    assert!(!str_eq("日本", "日"));
    assert!(str_contains("该账号已封禁", "账号已封禁"));
    assert!(str_contains("abc", ""));
    assert!(!str_contains("ab", "abc"));
    let parts: Vec<String> = ["a", "b", "c"].iter().map(|s| s.to_string()).collect();
    assert_eq!(join(&parts, ", "), "a, b, c");
    assert_eq!(join(&vec![], ", "), "");
    for (text, from, to) in [("aaaa", "aa", "b"), ("abab", "aba", "x"), ("", "a", "b")] {
        assert_eq!(replace_all(text, from, to), text.replace(from, to));
    }
}

#[test]
fn moments_have_a_text() {
    assert_eq!(
        datetime_to_text(Timestamp { secs: 951_782_400, nanos: 0 }),
        "2000-02-29 00:00:00"
    );
    assert_eq!(
        datetime_to_text(Timestamp { secs: -1, nanos: 500_000_000 }),
        "1969-12-31 23:59:59.500"
    );
}

#[test]
fn days_are_whole_and_rounded_toward_zero() {
    let at = |secs, nanos| Timestamp { secs, nanos };
    assert_eq!(days_between(at(86_400, 0), at(0, 0)), 1);
    assert_eq!(days_between(at(86_400, 0), at(0, 1)), 0);
    assert_eq!(days_between(at(0, 0), at(86_400, 0)), -1);
    assert_eq!(days_between(at(0, 1), at(86_400, 0)), 0);
    assert_eq!(days_between(at(MAX_SECS, 0), at(MIN_SECS, 0)), 191_491_528);
}

#[test]
fn moments_are_ordered() {
    let at = |secs, nanos| Timestamp { secs, nanos };
    assert!(at(1, 0).is_after(&at(0, 999_999_999)));
    assert!(at(1, 1).is_after(&at(1, 0)));
    assert!(!at(1, 1).is_after(&at(1, 1)));
    assert!(!at(-1, 0).is_after(&at(0, 0)));
}

#[test]
fn configuration_has_defaults() {
    let limit = ConcurrentLimit::default();
    assert_eq!((limit.video, limit.page), (3, 2));
    let rate = limit.rate_limit.unwrap();
    assert_eq!((rate.limit, rate.duration), (4, 250));
    let download = ConcurrentDownloadLimit::default();
    assert!(download.enable);
    assert_eq!(download.concurrency, 4);
    assert_eq!(download.threshold, 20 * 1024 * 1024);
    assert_eq!(limit.download.threshold, download.threshold);
    let skip = SkipOption::default();
    assert!(!skip.no_poster && !skip.no_video_nfo && !skip.no_upper);
    assert!(!skip.no_danmaku && !skip.no_subtitle);
    assert!(matches!(NFOTimeType::default(), NFOTimeType::FavTime));
    assert!(matches!(Trigger::default(), Trigger::Interval(1200)));
    let option = UpperAutoManageOption::default();
    assert!(!option.enabled);
    assert!(matches!(option.interval, Trigger::Interval(21600)));
    assert_eq!(option.inactive_threshold_days, 90);
    assert_eq!(option.check_concurrency, 3);
}
