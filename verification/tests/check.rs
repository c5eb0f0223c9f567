use bili_sync::bili_error::BiliError;
use bili_sync::check::{
    check_disabled_upper, judge_failure, judge_listed, CheckError, FetchError,
};
use bili_sync::inspection::{CheckOutcome, CheckOutcomeKind, SubmissionActivity};
use bili_sync::time::{from_unix, Timestamp, MAX_SECS, MIN_SECS};

fn cand(last: Option<i64>) -> SubmissionActivity {
    SubmissionActivity {
        submission_id: 7,
        upper_id: 4242,
        upper_name: "up".to_string(),
        last_pubtime: last.map(|secs| Timestamp { secs, nanos: 0 }),
    }
}

fn reply(text: &str, last: Option<i64>) -> Result<CheckOutcome, CheckError> {
    check_disabled_upper(&cand(last), Ok(text.to_string()))
}

fn response(code: i64, message: &str) -> FetchError {
    FetchError::Bili(BiliError::ErrorResponse {
        code,
        message: Some(message.to_string()),
        response: "{}".to_string(),
    })
}

#[test]
fn newer_video_means_recovered() {
    let text = r#"{"data":{"list":{"vlist":[{"pubdate":1700000000,"title":"x"},{"pubdate":1}]}}}"#;
    let outcome = reply(text, Some(1_699_999_999)).unwrap();
    assert_eq!(outcome.submission_id, 7);
    assert_eq!(outcome.upper_name, "up");
    match outcome.kind {
        CheckOutcomeKind::Recovered(at) => {
            assert_eq!(at, Timestamp { secs: 1_700_000_000, nanos: 0 })
        }
        other => panic!("{:?}", other),
    }
    assert!(matches!(
        reply(text, None).unwrap().kind,
        CheckOutcomeKind::Recovered(_)
    ));
}

#[test]
fn known_or_older_video_means_still_inactive() {
    let text = r#"{"data":{"list":{"vlist":[{"pubdate":1700000000}]}}}"#;
    assert!(matches!(
        reply(text, Some(1_700_000_000)).unwrap().kind,
        CheckOutcomeKind::StillInactive
    ));
    assert!(matches!(
        reply(text, Some(1_800_000_000)).unwrap().kind,
        CheckOutcomeKind::StillInactive
    ));
}

#[test]
fn no_list_or_empty_list_means_still_inactive() {
    for text in [
        r#"{"data":{"list":{"vlist":[]}}}"#,
        r#"{"data":{"list":{"vlist":{"0":{"pubdate":1700000000}}}}}"#,
        r#"{"data":{"list":null}}"#,
        r#"{"code":0}"#,
        "[1]",
        "null",
    ] {
        let outcome = reply(text, None).unwrap();
        assert!(matches!(outcome.kind, CheckOutcomeKind::StillInactive), "{}", text);
    }
}

#[test]
fn bad_publication_time_is_an_error() {
    for text in [
        r#"{"data":{"list":{"vlist":[{}]}}}"#,
        r#"{"data":{"list":{"vlist":[{"pubdate":"1700000000"}]}}}"#,
        r#"{"data":{"list":{"vlist":[{"pubdate":1.5}]}}}"#,
        r#"{"data":{"list":{"vlist":[3]}}}"#,
    ] {
        let error = reply(text, None).unwrap_err();
        assert!(matches!(error, CheckError::MissingPubdate(4242)), "{}", text);
        assert_eq!(error.to_string(), "解析 UP 4242 投稿 pubdate 失败");
    }
    let text = r#"{"data":{"list":{"vlist":[{"pubdate":9223372036854775807}]}}}"#;
    let error = reply(text, None).unwrap_err();
    assert!(matches!(error, CheckError::InvalidPubdate));
    assert_eq!(error.to_string(), "invalid pubdate timestamp");
}

#[test]
fn text_that_is_no_json_is_an_error() {
    let error = reply("<html>", None).unwrap_err();
    assert!(matches!(error, CheckError::NotJson));
    assert_eq!(error.to_string(), "response is not valid JSON");
}

#[test]
fn listed_video_is_judged_without_json() {
    assert!(matches!(
        judge_listed(&cand(None), None, Some(5)).unwrap().kind,
        CheckOutcomeKind::StillInactive
    ));
    assert!(matches!(
        judge_listed(&cand(None), Some(0), Some(5)).unwrap().kind,
        CheckOutcomeKind::StillInactive
    ));
    assert!(matches!(
        judge_listed(&cand(Some(4)), Some(2), Some(5)).unwrap().kind,
        CheckOutcomeKind::Recovered(Timestamp { secs: 5, nanos: 0 })
    ));
    assert!(matches!(
        judge_listed(&cand(None), Some(1), None),
        Err(CheckError::MissingPubdate(4242))
    ));
}

#[test]
fn gone_and_banned_accounts_are_told_apart() {
    let outcome = judge_failure(&cand(None), response(-404, "该用户不存在")).unwrap();
    match outcome.kind {
        CheckOutcomeKind::Gone(text) => {
            assert_eq!(text, "API returned error code -404, full response: {}")
        }
        other => panic!("{:?}", other),
    }
    let outcome =
        check_disabled_upper(&cand(None), Err(response(-352, "该账号已封禁"))).unwrap();
    assert_eq!(outcome.submission_id, 7);
    match outcome.kind {
        CheckOutcomeKind::BannedObservation(text) => {
            assert_eq!(text, "API returned error code -352, full response: {}")
        }
        other => panic!("{:?}", other),
    }
}

#[test]
fn any_other_failure_ends_the_inspection() {
    let risk = FetchError::Bili(BiliError::RiskControlOccurred("该用户不存在".to_string()));
    assert!(matches!(
        judge_failure(&cand(None), risk),
        Err(CheckError::Fetch(FetchError::Bili(BiliError::RiskControlOccurred(_))))
    ));
    assert!(judge_failure(&cand(None), response(-509, "请求过于频繁")).is_err());
    let error =
        judge_failure(&cand(None), FetchError::Other("timed out".to_string())).unwrap_err();
    assert_eq!(error.to_string(), "timed out");
    let error = judge_failure(&cand(None), response(-509, "请求过于频繁")).unwrap_err();
    assert_eq!(error.to_string(), "API returned error code -509, full response: {}");
}

#[test]
fn calendar_has_ends() {
    assert_eq!(from_unix(0), Some(Timestamp { secs: 0, nanos: 0 }));
    assert!(from_unix(MIN_SECS).is_some());
    assert!(from_unix(MAX_SECS).is_some());
    assert_eq!(from_unix(MIN_SECS - 1), None);
    assert_eq!(from_unix(MAX_SECS + 1), None);
}
