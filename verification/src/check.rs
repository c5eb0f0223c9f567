//! What the site's answer about a disabled uploader means.
//!
//! The second phase of an inspection asks the site for the first page of an uploader's videos.
//! The answer is a JSON text, or the request fails; either way this module says what it shows.
use vstd::prelude::*;

use crate::bili_error::BiliError;
use crate::inspection::{CheckOutcome, CheckOutcomeKind, SubmissionActivity};
use crate::text::push_decimal;
use crate::time::{from_unix, Timestamp};

verus! {

use crate::text::{
    contains, decimal, framed, law_occurrences_have_a_front_and_a_back, stands_in,
};
use crate::time::{MAX_SECS, MIN_SECS};

/// Why the site gave no answer.
#[derive(Debug)]
pub enum FetchError {
    /// The site reported a failure, or its answer shows one.
    Bili(BiliError),
    /// Anything else; this is its description.
    Other(String),
}

/// Why nothing can be said about an uploader. Each of these ends the whole inspection.
#[derive(Debug)]
pub enum CheckError {
    /// The site gave no answer.
    Fetch(FetchError),
    /// The answer is no JSON.
    NotJson,
    /// The first video of the answer has no publication time; this is the uploader.
    MissingPubdate(i64),
    /// The publication time lies outside the calendar.
    InvalidPubdate,
}

/// What an outcome says.
pub enum OutcomeView {
    Recovered(Timestamp),
    StillInactive,
    Gone(Seq<char>),
    BannedObservation(Seq<char>),
}

impl View for CheckOutcomeKind {
    type V = OutcomeView;

    open spec fn view(&self) -> OutcomeView {
        match *self {
            CheckOutcomeKind::Recovered(latest) => OutcomeView::Recovered(latest),
            CheckOutcomeKind::StillInactive => OutcomeView::StillInactive,
            CheckOutcomeKind::Gone(message) => OutcomeView::Gone(message@),
            CheckOutcomeKind::BannedObservation(message) => OutcomeView::BannedObservation(
                message@,
            ),
        }
    }
}

impl FetchError {
    /// The sentence that describes the failure.
    pub open spec fn description(self) -> Seq<char> {
        match self {
            FetchError::Bili(error) => error.description(),
            FetchError::Other(text) => text@,
        }
    }
}

impl CheckError {
    /// The sentence that describes the failure.
    pub open spec fn description(self) -> Seq<char> {
        match self {
            CheckError::Fetch(error) => error.description(),
            CheckError::NotJson => "response is not valid JSON"@,
            CheckError::MissingPubdate(upper_id) => "解析 UP "@ + decimal(upper_id as int)
                + " 投稿 pubdate 失败"@,
            CheckError::InvalidPubdate => "invalid pubdate timestamp"@,
        }
    }

    /// The sentence that describes the failure.
    pub fn to_string(&self) -> (r: String)
        ensures
            r@ == self.description(),
    {
        match self {
            CheckError::Fetch(FetchError::Bili(error)) => error.to_string(),
            CheckError::Fetch(FetchError::Other(text)) => text.clone(),
            CheckError::NotJson => "response is not valid JSON".to_string(),
            CheckError::MissingPubdate(upper_id) => {
                let mut out = String::new();
                out.append("解析 UP ");
                push_decimal(&mut out, *upper_id);
                out.append(" 投稿 pubdate 失败");
                out
            },
            CheckError::InvalidPubdate => "invalid pubdate timestamp".to_string(),
        }
    }
}

/// The length of the array that a JSON text holds at a JSON pointer: `None` where the text is no
/// JSON, `Some(None)` where there is no array at the pointer.
pub uninterp spec fn json_array_len_at(text: Seq<char>, pointer: Seq<char>) -> Option<
    Option<usize>,
>;

/// The integer that a JSON text holds at a JSON pointer: `None` where the text is no JSON, or
/// where there is no integer of this type at the pointer.
pub uninterp spec fn json_i64_at(text: Seq<char>, pointer: Seq<char>) -> Option<i64>;

/// [`serde_json::from_str`], and [`serde_json::Value::pointer`] and
/// [`serde_json::Value::as_array`] of what it reads: what they find is fixed by the text and the
/// pointer.
#[verifier::external_body]
fn json_array_len(text: &str, pointer: &str) -> (r: Option<Option<usize>>)
    ensures
        r == json_array_len_at(text@, pointer@),
{
    match serde_json::from_str::<serde_json::Value>(text) {
        Ok(value) => Some(value.pointer(pointer).and_then(serde_json::Value::as_array).map(Vec::len)),
        Err(_) => None,
    }
}

/// [`serde_json::from_str`], and [`serde_json::Value::pointer`] and
/// [`serde_json::Value::as_i64`] of what it reads: what they find is fixed by the text and the
/// pointer.
#[verifier::external_body]
fn json_i64(text: &str, pointer: &str) -> (r: Option<i64>)
    ensures
        r == json_i64_at(text@, pointer@),
{
    let value = serde_json::from_str::<serde_json::Value>(text).ok()?;
    value.pointer(pointer).and_then(serde_json::Value::as_i64)
}

/// What the site's list of videos shows: `listed` is its length, where there is one, and
/// `pubdate` the publication time of its first video, where there is one.
pub open spec fn listed_outcome(
    candidate: SubmissionActivity,
    listed: Option<usize>,
    pubdate: Option<i64>,
) -> Result<OutcomeView, CheckError> {
    if listed is None || listed == Some(0usize) {
        Ok(OutcomeView::StillInactive)
    } else {
        match pubdate {
            None => Err(CheckError::MissingPubdate(candidate.upper_id)),
            Some(secs) => {
                let latest = Timestamp { secs, nanos: 0 };
                if !(MIN_SECS <= secs <= MAX_SECS) {
                    Err(CheckError::InvalidPubdate)
                } else {
                    match candidate.last_pubtime {
                        Some(known) if !latest.after(known) => Ok(OutcomeView::StillInactive),
                        _ => Ok(OutcomeView::Recovered(latest)),
                    }
                }
            },
        }
    }
}

/// What a failed request shows about an uploader. The site's holding the client off comes first:
/// nothing else is read into such a failure.
pub open spec fn failed_outcome(error: FetchError) -> Result<OutcomeView, CheckError> {
    match error {
        FetchError::Bili(bili) if !bili.risk_control() && bili.upper_gone() => Ok(
            OutcomeView::Gone(bili.description()),
        ),
        FetchError::Bili(bili) if !bili.risk_control() && bili.upper_banned() => Ok(
            OutcomeView::BannedObservation(bili.description()),
        ),
        _ => Err(CheckError::Fetch(error)),
    }
}

/// The result is what was to be shown about the candidate.
pub open spec fn tells(
    r: Result<CheckOutcome, CheckError>,
    candidate: SubmissionActivity,
    shown: Result<OutcomeView, CheckError>,
) -> bool {
    match shown {
        Ok(kind) => {
            &&& r matches Ok(outcome)
            &&& outcome.kind@ == kind
            &&& outcome.kind.wf()
            &&& outcome.submission_id == candidate.submission_id
            &&& outcome.upper_name == candidate.upper_name
        },
        Err(error) => r == Err::<CheckOutcome, CheckError>(error),
    }
}

fn outcome_for(candidate: &SubmissionActivity, kind: CheckOutcomeKind) -> (r: CheckOutcome)
    ensures
        r.kind == kind,
        r.submission_id == candidate.submission_id,
        r.upper_name == candidate.upper_name,
{
    CheckOutcome {
        kind,
        submission_id: candidate.submission_id,
        upper_name: candidate.upper_name.clone(),
    }
}

/// Reads the site's list of videos: without a video the uploader is still inactive; otherwise the
/// first one decides, by being newer than the newest known one.
pub fn judge_listed(
    candidate: &SubmissionActivity,
    listed: Option<usize>,
    pubdate: Option<i64>,
) -> (r: Result<CheckOutcome, CheckError>)
    ensures
        tells(r, *candidate, listed_outcome(*candidate, listed, pubdate)),
{
    let empty = match listed {
        None => true,
        Some(count) => count == 0,
    };
    if empty {
        return Ok(outcome_for(candidate, CheckOutcomeKind::StillInactive));
    }
    let secs: i64 = match pubdate {
        None => {
            return Err(CheckError::MissingPubdate(candidate.upper_id));
        },
        Some(secs) => secs,
    };
    let latest = match from_unix(secs) {
        None => {
            return Err(CheckError::InvalidPubdate);
        },
        Some(latest) => latest,
    };
    let recovered = match candidate.last_pubtime {
        Some(known) => latest.is_after(&known),
        None => true,
    };
    if recovered {
        Ok(outcome_for(candidate, CheckOutcomeKind::Recovered(latest)))
    } else {
        Ok(outcome_for(candidate, CheckOutcomeKind::StillInactive))
    }
}

/// Reads a failed request: an account that is gone or banned is an outcome, anything else ends
/// the inspection.
pub fn judge_failure(candidate: &SubmissionActivity, error: FetchError) -> (r: Result<
    CheckOutcome,
    CheckError,
>)
    ensures
        tells(r, *candidate, failed_outcome(error)),
{
    if let FetchError::Bili(bili) = &error {
        if !bili.is_risk_control_related() {
            if bili.is_upper_permanently_gone() {
                return Ok(outcome_for(candidate, CheckOutcomeKind::Gone(bili.to_string())));
            }
            if bili.is_upper_banned() {
                return Ok(
                    outcome_for(candidate, CheckOutcomeKind::BannedObservation(bili.to_string())),
                );
            }
        }
    }
    Err(CheckError::Fetch(error))
}

/// What the site's answer, or its failure to give one, shows about a disabled uploader.
pub open spec fn reply_outcome(
    candidate: SubmissionActivity,
    reply: Result<String, FetchError>,
) -> Result<OutcomeView, CheckError> {
    match reply {
        Ok(text) => match json_array_len_at(text@, "/data/list/vlist"@) {
            None => Err(CheckError::NotJson),
            Some(listed) => listed_outcome(
                candidate,
                listed,
                json_i64_at(text@, "/data/list/vlist/0/pubdate"@),
            ),
        },
        Err(error) => failed_outcome(error),
    }
}

/// Reads the site's answer about a disabled uploader: publishing again, still inactive, gone, or
/// banned.
pub fn check_disabled_upper(
    candidate: &SubmissionActivity,
    reply: Result<String, FetchError>,
) -> (r: Result<CheckOutcome, CheckError>)
    ensures
        tells(r, *candidate, reply_outcome(*candidate, reply)),
{
    match reply {
        Ok(text) => match json_array_len(text.as_str(), "/data/list/vlist") {
            None => Err(CheckError::NotJson),
            Some(listed) => {
                let pubdate: Option<i64> = json_i64(text.as_str(), "/data/list/vlist/0/pubdate");
                judge_listed(candidate, listed, pubdate)
            },
        },
        Err(error) => judge_failure(candidate, error),
    }
}

/// While the site holds the client off, nothing is concluded about any uploader: the inspection
/// ends with that very failure.
pub proof fn law_risk_control_ends_the_inspection(error: BiliError)
    requires
        error.risk_control(),
    ensures
        failed_outcome(FetchError::Bili(error)) == Err::<OutcomeView, CheckError>(
            CheckError::Fetch(FetchError::Bili(error)),
        ),
{
}

/// An uploader is found publishing again only by a video that is newer than every known one.
pub proof fn law_recovered_means_newer(
    candidate: SubmissionActivity,
    listed: Option<usize>,
    pubdate: Option<i64>,
)
    ensures
        listed_outcome(candidate, listed, pubdate) matches Ok(OutcomeView::Recovered(latest))
            ==> latest.wf() && pubdate == Some(latest.secs) && (candidate.last_pubtime matches Some(
            known,
        ) ==> latest.after(known)),
{
}

/// Nobody is taken for gone or banned but on the site's own word, and whoever is gone is not
/// merely set aside.
pub proof fn law_verdicts_rest_on_the_sites_word(error: FetchError)
    ensures
        failed_outcome(error) matches Ok(OutcomeView::Gone(_)) <==> (error matches FetchError::Bili(
            bili,
        ) && bili.upper_gone()),
        failed_outcome(error) matches Ok(OutcomeView::BannedObservation(_)) <==> (
        error matches FetchError::Bili(bili) && bili.upper_banned() && !bili.upper_gone()),
        !(failed_outcome(error) matches Ok(OutcomeView::Recovered(_))),
{
    if let FetchError::Bili(bili) = error {
        if bili.risk_control() {
            crate::bili_error::law_risk_control_condemns_nobody(bili);
        }
    }
}

/// What the site's list of videos shows is fixed by the list alone, whatever its length: without a
/// list, or with an empty one, there is nothing new. Otherwise the first video decides. Its time
/// must be there and lie in the calendar, from January 1 of the year -262143 to the end of the
/// year 262142. The uploader is publishing again, from that time on, exactly where no video was
/// known or the first one is newer than the newest known one.
pub proof fn law_first_listed_video_decides(
    candidate: SubmissionActivity,
    listed: Option<usize>,
    pubdate: Option<i64>,
    r: Result<CheckOutcome, CheckError>,
)
    requires
        call_ensures(judge_listed, (&candidate, listed, pubdate), r),
    ensures
        ({
            let videos = match listed {
                Some(count) => count as int,
                None => 0,
            };
            let known = candidate.last_pubtime;
            let newer = pubdate matches Some(secs) && (known matches Some(known) ==> secs
                > known.secs);
            let held = pubdate matches Some(secs) && -8334601228800 <= secs <= 8210266876799;
            &&& (r is Err && r->Err_0 is MissingPubdate) <==> videos > 0 && pubdate is None
            &&& r matches Err(CheckError::MissingPubdate(id)) ==> id == candidate.upper_id
            &&& (r is Err && r->Err_0 is InvalidPubdate) <==> videos > 0 && pubdate is Some
                && !held
            &&& r is Err ==> r->Err_0 is MissingPubdate || r->Err_0 is InvalidPubdate
            &&& r matches Ok(outcome) ==> outcome.submission_id == candidate.submission_id
                && outcome.upper_name == candidate.upper_name
            &&& r matches Ok(outcome) ==> outcome.kind is Recovered || outcome.kind is StillInactive
            &&& (r matches Ok(outcome) && outcome.kind is Recovered) <==> videos > 0 && held
                && newer
            &&& (r matches Ok(outcome) && outcome.kind is StillInactive) <==> videos == 0 || (held
                && !newer)
            &&& r matches Ok(outcome) ==> (outcome.kind matches CheckOutcomeKind::Recovered(latest)
                ==> pubdate == Some(latest.secs) && latest.nanos == 0)
        }),
{
}

/// A longer list shows the same as a shorter one with the same first video.
pub proof fn law_the_length_of_the_list_is_no_matter(
    candidate: SubmissionActivity,
    first: usize,
    second: usize,
    pubdate: Option<i64>,
    r: Result<CheckOutcome, CheckError>,
    other: Result<CheckOutcome, CheckError>,
)
    requires
        first > 0,
        second > 0,
        call_ensures(judge_listed, (&candidate, Some(first), pubdate), r),
        call_ensures(judge_listed, (&candidate, Some(second), pubdate), other),
    ensures
        r is Ok <==> other is Ok,
        r matches Ok(outcome) ==> (other matches Ok(same) && outcome.kind@ == same.kind@),
{
}

/// A failed request says something about the uploader only where the site answered with a code
/// and a message of its own: the message that the user does not exist or has closed the account
/// means that it is gone, the message that the account or the space is banned or frozen, that it
/// is banned. The first goes before the second. Any other failure is handed on as it is.
pub proof fn law_failures_are_read_by_the_sites_message(
    candidate: SubmissionActivity,
    error: FetchError,
    r: Result<CheckOutcome, CheckError>,
)
    requires
        call_ensures(judge_failure, (&candidate, error), r),
    ensures
        ({
            let message = match error {
                FetchError::Bili(
                    BiliError::ErrorResponse { message: Some(message), .. },
                ) => message@,
                _ => Seq::empty(),
            };
            let gone = stands_in("用户不存在"@, message) || stands_in("已注销"@, message);
            let banned = stands_in("账号已封禁"@, message) || stands_in(
                "账号被封禁"@,
                message,
            ) || stands_in("已被冻结"@, message) || stands_in("已被封禁"@, message) || stands_in(
                "空间已封禁"@,
                message,
            );
            &&& gone <==> (r matches Ok(outcome) && outcome.kind is Gone)
            &&& !gone && banned <==> (r matches Ok(outcome) && outcome.kind is BannedObservation)
            &&& !gone && !banned <==> r is Err
            &&& !gone && !banned ==> r == Err::<CheckOutcome, CheckError>(CheckError::Fetch(error))
            &&& r matches Ok(outcome) ==> outcome.submission_id == candidate.submission_id
                && outcome.upper_name == candidate.upper_name
            &&& r matches Ok(outcome) ==> (error matches FetchError::Bili(
                BiliError::ErrorResponse { code, response, .. },
            ) && {
                let told = "API returned error code "@ + decimal(code as int)
                    + ", full response: "@ + response@;
                outcome.kind@ == OutcomeView::Gone(told) || outcome.kind@
                    == OutcomeView::BannedObservation(told)
            })
        }),
{
    lemma_keywords_are_not_empty();
    if let FetchError::Bili(BiliError::ErrorResponse { message: Some(message), .. }) = error {
        law_occurrences_have_a_front_and_a_back(message@, "该用户不存在"@);
        law_occurrences_have_a_front_and_a_back(message@, "用户不存在"@);
        law_occurrences_have_a_front_and_a_back(message@, "已注销"@);
        law_occurrences_have_a_front_and_a_back(message@, "账号已封禁"@);
        law_occurrences_have_a_front_and_a_back(message@, "账号被封禁"@);
        law_occurrences_have_a_front_and_a_back(message@, "已被冻结"@);
        law_occurrences_have_a_front_and_a_back(message@, "已被封禁"@);
        law_occurrences_have_a_front_and_a_back(message@, "空间已封禁"@);
        if contains(message@, "该用户不存在"@) {
            crate::bili_error::law_missing_user_keyword(message@);
        }
    }
}

proof fn lemma_keywords_are_not_empty()
    ensures
        !stands_in("用户不存在"@, Seq::empty()),
        !stands_in("已注销"@, Seq::empty()),
        !stands_in("账号已封禁"@, Seq::empty()),
        !stands_in("账号被封禁"@, Seq::empty()),
        !stands_in("已被冻结"@, Seq::empty()),
        !stands_in("已被封禁"@, Seq::empty()),
        !stands_in("空间已封禁"@, Seq::empty()),
{
    reveal_strlit("用户不存在");
    reveal_strlit("已注销");
    reveal_strlit("账号已封禁");
    reveal_strlit("账号被封禁");
    reveal_strlit("已被冻结");
    reveal_strlit("已被封禁");
    reveal_strlit("空间已封禁");
    assert forall|needle: Seq<char>| needle.len() > 0 implies !#[trigger] stands_in(
        needle,
        Seq::empty(),
    ) by {
        if stands_in(needle, Seq::empty()) {
            let (front, back) = choose|front: Seq<char>, back: Seq<char>|
                Seq::<char>::empty() == #[trigger] framed(front, needle, back);
            assert(framed(front, needle, back).len() > 0);
        }
    }
}

/// The site's answer is read at `/data/list/vlist` of its JSON, and at the `pubdate` of the first
/// entry there; an answer that is no JSON is refused, and a failed request is read as such.
pub proof fn law_answers_are_read_at_the_list_of_videos(
    candidate: SubmissionActivity,
    reply: Result<String, FetchError>,
    r: Result<CheckOutcome, CheckError>,
    seen: Result<CheckOutcome, CheckError>,
)
    requires
        call_ensures(check_disabled_upper, (&candidate, reply), r),
        match reply {
            Ok(text) => json_array_len_at(text@, "/data/list/vlist"@) matches Some(listed)
                ==> call_ensures(
                judge_listed,
                (&candidate, listed, json_i64_at(text@, "/data/list/vlist/0/pubdate"@)),
                seen,
            ),
            Err(error) => call_ensures(judge_failure, (&candidate, error), seen),
        },
    ensures
        if reply matches Ok(text) && json_array_len_at(text@, "/data/list/vlist"@) is None {
            r == Err::<CheckOutcome, CheckError>(CheckError::NotJson)
        } else {
            match seen {
                Err(error) => r == Err::<CheckOutcome, CheckError>(error),
                Ok(outcome) => r matches Ok(told) && told.kind@ == outcome.kind@
                    && told.submission_id == outcome.submission_id && told.upper_name
                    == outcome.upper_name,
            }
        },
{
}

/// What ends an inspection is told in words: a failed request in its own, a missing publication
/// time with the uploader's number.
pub proof fn law_check_errors_are_told_in_words(error: CheckError, text: String)
    requires
        call_ensures(CheckError::to_string, (&error,), text),
    ensures
        error matches CheckError::MissingPubdate(upper_id) ==> text@ == "解析 UP "@ + decimal(
            upper_id as int,
        ) + " 投稿 pubdate 失败"@,
        error is InvalidPubdate ==> text@ == "invalid pubdate timestamp"@,
        error is NotJson ==> text@ == "response is not valid JSON"@,
        error matches CheckError::Fetch(FetchError::Other(told)) ==> text@ == told@,
        error matches CheckError::Fetch(FetchError::Bili(bili)) ==> forall|told: String| #[trigger]
            call_ensures(BiliError::to_string, (&bili,), told) ==> text@ == told@,
{
}

} // verus!
