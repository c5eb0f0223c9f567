use bili_sync::bili_error::BiliError;

fn with_message(message: Option<&str>) -> BiliError {
    BiliError::ErrorResponse {
        code: -404,
        message: message.map(String::from),
        response: String::new(),
    }
}

fn with_code(code: i64) -> BiliError {
    BiliError::ErrorResponse {
        code,
        message: Some("test".to_string()),
        response: String::new(),
    }
}

#[test]
fn test_is_upper_unavailable() {
    let make = with_message;
    assert!(make(Some("该用户不存在")).is_upper_unavailable());
    assert!(make(Some("该账号已封禁")).is_upper_unavailable());
    assert!(make(Some("该账号已被冻结")).is_upper_unavailable());
    assert!(make(Some("空间已封禁")).is_upper_unavailable());
    assert!(!make(Some("视频不存在")).is_upper_unavailable());
    assert!(!make(None).is_upper_unavailable());
    assert!(!BiliError::VideoStreamsEmpty.is_upper_unavailable());
    assert!(!BiliError::RiskControlOccurred("x".to_string()).is_upper_unavailable());
}

#[test]
fn test_is_upper_permanently_gone_and_banned_split() {
    let make = with_message;
    let cases: &[(&str, bool, bool)] = &[
        ("该用户不存在", true, false),
        ("用户不存在", true, false),
        ("该 UP 已注销", true, false),
        ("该账号已封禁", false, true),
        ("账号被封禁了", false, true),
        ("该账号已被冻结", false, true),
        ("已被封禁，请联系客服", false, true),
        ("空间已封禁", false, true),
        ("视频不存在", false, false),
        ("", false, false),
    ];
    for (msg, exp_gone, exp_banned) in cases {
        let e = make(Some(msg));
        assert_eq!(e.is_upper_permanently_gone(), *exp_gone, "msg={msg:?}");
        assert_eq!(e.is_upper_banned(), *exp_banned, "msg={msg:?}");
        assert_eq!(e.is_upper_unavailable(), *exp_gone || *exp_banned, "msg={msg:?}");
    }
    assert!(!make(None).is_upper_permanently_gone());
    assert!(!make(None).is_upper_banned());
    assert!(!BiliError::VideoStreamsEmpty.is_upper_permanently_gone());
    assert!(!BiliError::VideoStreamsEmpty.is_upper_banned());
}

#[test]
fn test_is_video_inaccessible() {
    let make = with_code;
    assert!(make(-404).is_video_inaccessible());
    assert!(make(62002).is_video_inaccessible());
    assert!(!make(-509).is_video_inaccessible());
    assert!(!make(-352).is_video_inaccessible());
    assert!(!make(0).is_video_inaccessible());
    assert!(!BiliError::VideoStreamsEmpty.is_video_inaccessible());
    assert!(!BiliError::RiskControlOccurred("x".to_string()).is_video_inaccessible());
}

#[test]
fn common_errors_need_code_and_message() {
    let make = |code: i64, message: Option<&str>| BiliError::ErrorResponse {
        code,
        message: message.map(String::from),
        response: String::new(),
    };
    assert!(make(-503, Some("服务暂不可用")).is_common_error());
    assert!(make(-504, Some("服务调用超时")).is_common_error());
    assert!(!make(-503, Some("服务调用超时")).is_common_error());
    assert!(!make(-504, Some("服务暂不可用")).is_common_error());
    assert!(!make(-503, Some("服务暂不可用。")).is_common_error());
    assert!(!make(-503, None).is_common_error());
    assert!(!BiliError::VideoStreamsEmpty.is_common_error());
}

#[test]
fn risk_control_covers_three_variants() {
    assert!(BiliError::RiskControlOccurred(String::new()).is_risk_control_related());
    assert!(BiliError::VideoStreamsEmpty.is_risk_control_related());
    assert!(BiliError::InvalidStatusCode(412, "Precondition Failed").is_risk_control_related());
    assert!(!BiliError::InvalidResponse(String::new()).is_risk_control_related());
    assert!(!with_code(-352).is_risk_control_related());
}

#[test]
fn errors_describe_themselves() {
    assert_eq!(
        BiliError::InvalidResponse("{}".to_string()).to_string(),
        "response missing 'code' field, full response: {}"
    );
    assert_eq!(
        BiliError::ErrorResponse {
            code: -404,
            message: Some("啥都木有".to_string()),
            response: "{\"code\":-404}".to_string(),
        }
        .to_string(),
        "API returned error code -404, full response: {\"code\":-404}"
    );
    assert_eq!(
        BiliError::RiskControlOccurred("v_voucher".to_string()).to_string(),
        "risk control triggered by server, full response: v_voucher"
    );
    assert_eq!(
        BiliError::InvalidStatusCode(412, "Precondition Failed").to_string(),
        "invalid HTTP response code 412, reason: Precondition Failed"
    );
    assert_eq!(
        BiliError::VideoStreamsEmpty.to_string(),
        "no video streams available (may indicate risk control)"
    );
}
