//! What can go wrong in a request to the video site, and what each failure means for an uploader
//! or for a video.
use vstd::prelude::*;

use crate::text::{push_decimal, str_contains, str_eq};

verus! {

use crate::text::{
    contains, decimal, law_occurrences_have_a_front_and_a_back, stands_in,
};

/// A failure that the video site reported, or that its answer shows.
#[derive(Clone, Debug)]
pub enum BiliError {
    /// The answer has no `code` field; this is the answer.
    InvalidResponse(String),
    /// The answer carries a code other than success.
    ErrorResponse { code: i64, message: Option<String>, response: String },
    /// The site wants a human to show up; this is the answer.
    RiskControlOccurred(String),
    /// The HTTP status is no success: its code and its reason phrase.
    InvalidStatusCode(u16, &'static str),
    /// The video has no stream to download.
    VideoStreamsEmpty,
}

/// The message speaks of an account that no longer exists.
pub open spec fn tells_gone(message: Seq<char>) -> bool {
    ||| contains(message, "该用户不存在"@)
    ||| contains(message, "用户不存在"@)
    ||| contains(message, "已注销"@)
}

/// The message speaks of an account that is banned or frozen.
pub open spec fn tells_banned(message: Seq<char>) -> bool {
    ||| contains(message, "账号已封禁"@)
    ||| contains(message, "账号被封禁"@)
    ||| contains(message, "已被冻结"@)
    ||| contains(message, "已被封禁"@)
    ||| contains(message, "空间已封禁"@)
}

impl BiliError {
    /// The site's own message: only an error response has one, and not always.
    pub open spec fn site_message(self) -> Option<Seq<char>> {
        match self {
            BiliError::ErrorResponse { message: Some(message), .. } => Some(message@),
            _ => None,
        }
    }

    /// The site's own code: only an error response has one.
    pub open spec fn site_code(self) -> Option<i64> {
        match self {
            BiliError::ErrorResponse { code, .. } => Some(code),
            _ => None,
        }
    }

    /// The site is holding the client off.
    pub open spec fn risk_control(self) -> bool {
        self is RiskControlOccurred || self is VideoStreamsEmpty || self is InvalidStatusCode
    }

    /// The site says that the account no longer exists.
    pub open spec fn upper_gone(self) -> bool {
        self.site_message() matches Some(message) && tells_gone(message)
    }

    /// The site says that the account is banned or frozen.
    pub open spec fn upper_banned(self) -> bool {
        self.site_message() matches Some(message) && tells_banned(message)
    }

    /// The sentence that describes the failure.
    pub open spec fn description(self) -> Seq<char> {
        match self {
            BiliError::InvalidResponse(response) =>
                "response missing 'code' field, full response: "@ + response@,
            BiliError::ErrorResponse { code, response, .. } =>
                "API returned error code "@ + decimal(code as int) + ", full response: "@
                    + response@,
            BiliError::RiskControlOccurred(response) =>
                "risk control triggered by server, full response: "@ + response@,
            BiliError::InvalidStatusCode(code, reason) =>
                "invalid HTTP response code "@ + decimal(code as int) + ", reason: "@ + reason@,
            BiliError::VideoStreamsEmpty =>
                "no video streams available (may indicate risk control)"@,
        }
    }

    /// Whether the failure comes from the site holding the client off.
    pub fn is_risk_control_related(&self) -> (r: bool)
        ensures
            r == self.risk_control(),
    {
        matches!(
            self,
            BiliError::RiskControlOccurred(_)
                | BiliError::VideoStreamsEmpty
                | BiliError::InvalidStatusCode(_, _)
        )
    }

    /// Whether the failure is one of the site's common passing troubles: unavailable, or timed
    /// out.
    pub fn is_common_error(&self) -> (r: bool)
        ensures
            r == ((self.site_code() == Some(-503i64) && self.site_message() == Some("服务暂不可用"@))
                || (self.site_code() == Some(-504i64) && self.site_message() == Some(
                "服务调用超时"@,
            ))),
    {
        if let BiliError::ErrorResponse { code, message: Some(message), .. } = self {
            if *code == -503 && str_eq(message.as_str(), "服务暂不可用") {
                return true;
            }
            if *code == -504 && str_eq(message.as_str(), "服务调用超时") {
                return true;
            }
        }
        false
    }

    /// Whether the failure means that the uploader's account cannot be used: gone, or banned.
    ///
    /// The code is no guide: -404 stands for a missing user and for a missing video.
    pub fn is_upper_unavailable(&self) -> (r: bool)
        ensures
            r == (self.upper_gone() || self.upper_banned()),
    {
        self.is_upper_permanently_gone() || self.is_upper_banned()
    }

    /// Whether the failure means that the uploader's account no longer exists.
    pub fn is_upper_permanently_gone(&self) -> (r: bool)
        ensures
            r == self.upper_gone(),
    {
        if let BiliError::ErrorResponse { message: Some(message), .. } = self {
            return str_contains(message.as_str(), "该用户不存在") || str_contains(
                message.as_str(),
                "用户不存在",
            ) || str_contains(message.as_str(), "已注销");
        }
        false
    }

    /// Whether the failure means that the uploader's account is banned or frozen, for a while or
    /// for good.
    pub fn is_upper_banned(&self) -> (r: bool)
        ensures
            r == self.upper_banned(),
    {
        if let BiliError::ErrorResponse { message: Some(message), .. } = self {
            return str_contains(message.as_str(), "账号已封禁") || str_contains(
                message.as_str(),
                "账号被封禁",
            ) || str_contains(message.as_str(), "已被冻结") || str_contains(
                message.as_str(),
                "已被封禁",
            ) || str_contains(message.as_str(), "空间已封禁");
        }
        false
    }

    /// Whether the failure means that the video cannot be seen: it does not exist (-404), or its
    /// uploader or the site hides it (62002).
    pub fn is_video_inaccessible(&self) -> (r: bool)
        ensures
            r == (self.site_code() == Some(-404i64) || self.site_code() == Some(62002i64)),
    {
        if let BiliError::ErrorResponse { code, .. } = self {
            return *code == -404 || *code == 62002;
        }
        false
    }

    /// The sentence that describes the failure.
    pub fn to_string(&self) -> (r: String)
        ensures
            r@ == self.description(),
    {
        let mut out = String::new();
        match self {
            BiliError::InvalidResponse(response) => {
                out.append("response missing 'code' field, full response: ");
                out.append(response.as_str());
            },
            BiliError::ErrorResponse { code, response, .. } => {
                out.append("API returned error code ");
                push_decimal(&mut out, *code);
                out.append(", full response: ");
                out.append(response.as_str());
            },
            BiliError::RiskControlOccurred(response) => {
                out.append("risk control triggered by server, full response: ");
                out.append(response.as_str());
            },
            BiliError::InvalidStatusCode(code, reason) => {
                out.append("invalid HTTP response code ");
                push_decimal(&mut out, *code as i64);
                out.append(", reason: ");
                out.append(reason);
            },
            BiliError::VideoStreamsEmpty => {
                out.append("no video streams available (may indicate risk control)");
            },
        }
        out
    }
}

/// A failure that shows the site holding the client off says nothing about an uploader or about a
/// video: it is never read as an account that is gone or banned.
pub proof fn law_risk_control_condemns_nobody(error: BiliError)
    requires
        error.risk_control(),
    ensures
        !error.upper_gone(),
        !error.upper_banned(),
        error.site_code() is None,
{
}

/// Every message that names a missing user in full names it in short as well.
pub proof fn law_missing_user_keyword(message: Seq<char>)
    requires
        contains(message, "该用户不存在"@),
    ensures
        contains(message, "用户不存在"@),
{
    reveal_strlit("该用户不存在");
    reveal_strlit("用户不存在");
    let long = "该用户不存在"@;
    let short = "用户不存在"@;
    let at = choose|at: int| #[trigger] crate::text::occurs_at(message, long, at);
    assert(long.subrange(1, 6) =~= short);
    assert(message.subrange(at + 1, at + 6) =~= message.subrange(at, at + 6).subrange(1, 6));
    assert(crate::text::occurs_at(message, short, at + 1));
}

/// The message of the site stands in the failure: only an answer with a code has one.
pub open spec fn told_by(error: BiliError, text: Seq<char>) -> bool {
    error matches BiliError::ErrorResponse { message: Some(message), .. } && stands_in(
        text,
        message@,
    )
}

/// A failure shows that the account is gone by the words "用户不存在" or "已注销" in the site's
/// message, and that it is banned by "账号已封禁", "账号被封禁", "已被冻结", "已被封禁" or
/// "空间已封禁". The code is no matter, and a failure without a message shows neither.
pub proof fn law_accounts_are_judged_by_the_message(
    error: BiliError,
    gone: bool,
    banned: bool,
    unavailable: bool,
)
    requires
        call_ensures(BiliError::is_upper_permanently_gone, (&error,), gone),
        call_ensures(BiliError::is_upper_banned, (&error,), banned),
        call_ensures(BiliError::is_upper_unavailable, (&error,), unavailable),
    ensures
        gone <==> told_by(error, "用户不存在"@) || told_by(error, "已注销"@),
        banned <==> told_by(error, "账号已封禁"@) || told_by(error, "账号被封禁"@) || told_by(
            error,
            "已被冻结"@,
        ) || told_by(error, "已被封禁"@) || told_by(error, "空间已封禁"@),
        unavailable <==> gone || banned,
{
    if let BiliError::ErrorResponse { message: Some(message), .. } = error {
        law_occurrences_have_a_front_and_a_back(message@, "该用户不存在"@);
        law_occurrences_have_a_front_and_a_back(message@, "用户不存在"@);
        law_occurrences_have_a_front_and_a_back(message@, "已注销"@);
        law_occurrences_have_a_front_and_a_back(message@, "账号已封禁"@);
        law_occurrences_have_a_front_and_a_back(message@, "账号被封禁"@);
        law_occurrences_have_a_front_and_a_back(message@, "已被冻结"@);
        law_occurrences_have_a_front_and_a_back(message@, "已被封禁"@);
        law_occurrences_have_a_front_and_a_back(message@, "空间已封禁"@);
        if contains(message@, "该用户不存在"@) {
            law_missing_user_keyword(message@);
        }
    }
}

/// Only the codes -404 and 62002 mean that a video cannot be seen, whatever the message; only the
/// codes -503 and -504 with their own messages are passing troubles. The site holds the client off
/// where it says so, where a video has no stream, and where the HTTP status is no success, and
/// nowhere else.
pub proof fn law_failures_are_told_apart_by_code(
    error: BiliError,
    inaccessible: bool,
    common: bool,
    held_off: bool,
)
    requires
        call_ensures(BiliError::is_video_inaccessible, (&error,), inaccessible),
        call_ensures(BiliError::is_common_error, (&error,), common),
        call_ensures(BiliError::is_risk_control_related, (&error,), held_off),
    ensures
        inaccessible <==> (error matches BiliError::ErrorResponse { code, .. } && (code == -404
            || code == 62002)),
        common <==> (error matches BiliError::ErrorResponse { code, message: Some(message), .. }
            && ((code == -503 && message@ == "服务暂不可用"@) || (code == -504 && message@
            == "服务调用超时"@))),
        held_off <==> !(error is ErrorResponse || error is InvalidResponse),
{
}

/// The sentence of a failure names its code where it has one, and ends with the site's answer in
/// full.
pub proof fn law_failures_are_told_in_full(error: BiliError, text: String)
    requires
        call_ensures(BiliError::to_string, (&error,), text),
    ensures
        match error {
            BiliError::InvalidResponse(response) => text@
                == "response missing 'code' field, full response: "@ + response@,
            BiliError::ErrorResponse { code, response, .. } => text@ == "API returned error code "@
                + decimal(code as int) + ", full response: "@ + response@,
            BiliError::RiskControlOccurred(response) => text@
                == "risk control triggered by server, full response: "@ + response@,
            BiliError::InvalidStatusCode(code, reason) => text@ == "invalid HTTP response code "@
                + decimal(code as int) + ", reason: "@ + reason@,
            BiliError::VideoStreamsEmpty => text@
                == "no video streams available (may indicate risk control)"@,
        },
{
}

} // verus!
