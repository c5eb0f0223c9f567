//! The part of the web interface that shows and changes the video sources.
use vstd::prelude::*;

use crate::api::InnerApiError;
use crate::policy::{
    upsert_policy_txn, PolicyRow, PolicyWrite, UpperManagePolicy, UpperManageSource, UpperRecord,
};
use crate::text::str_eq;
use crate::time::Timestamp;
use crate::videos::SourceType;

verus! {

use crate::api::bad_request;
use crate::policy::{row_holds, UpperState};

/// The name of a kind of sources, in requests.
pub open spec fn kind_name(kind: SourceType) -> Seq<char> {
    match kind {
        SourceType::Collection => "collections"@,
        SourceType::Favorite => "favorites"@,
        SourceType::WatchLater => "watch_later"@,
        SourceType::Submission => "submissions"@,
    }
}

/// The kind of sources under a name, if there is one.
pub open spec fn kind_named(name: Seq<char>) -> Option<SourceType> {
    if name == "collections"@ {
        Some(SourceType::Collection)
    } else if name == "favorites"@ {
        Some(SourceType::Favorite)
    } else if name == "submissions"@ {
        Some(SourceType::Submission)
    } else if name == "watch_later"@ {
        Some(SourceType::WatchLater)
    } else {
        None
    }
}

fn invalid_type() -> (r: InnerApiError)
    ensures
        bad_request(r, "Invalid video source type"@),
{
    InnerApiError::BadRequest("Invalid video source type".to_string())
}

/// The kind of sources under a name. Any other name is refused.
pub fn parse_source_type(source_type: &str) -> (r: Result<SourceType, InnerApiError>)
    ensures
        match kind_named(source_type@) {
            Some(kind) => r == Ok::<SourceType, InnerApiError>(kind),
            None => r matches Err(error) && bad_request(error, "Invalid video source type"@),
        },
{
    if str_eq(source_type, "collections") {
        Ok(SourceType::Collection)
    } else if str_eq(source_type, "favorites") {
        Ok(SourceType::Favorite)
    } else if str_eq(source_type, "submissions") {
        Ok(SourceType::Submission)
    } else if str_eq(source_type, "watch_later") {
        Ok(SourceType::WatchLater)
    } else {
        Err(invalid_type())
    }
}

/// The name of a kind of sources is read back as that kind.
pub proof fn law_kind_names_read_back(kind: SourceType)
    ensures
        kind_named(kind_name(kind)) == Some(kind),
{
    reveal_strlit("collections");
    reveal_strlit("favorites");
    reveal_strlit("watch_later");
    reveal_strlit("submissions");
    assert("collections"@[0] == 'c');
    assert("favorites"@[0] == 'f');
    assert("watch_later"@[0] == 'w');
    assert("submissions"@[0] == 's');
}

/// The template for the path of a new source, by the name of its kind. Where everything to watch
/// later goes is no template's business: that name, and any other, is refused.
pub fn default_path_template(source_type: &str) -> (r: Result<&'static str, InnerApiError>)
    ensures
        match kind_named(source_type@) {
            Some(SourceType::Favorite) => r matches Ok(name) && name@ == "favorite_default_path"@,
            Some(SourceType::Collection) => r matches Ok(name) && name@
                == "collection_default_path"@,
            Some(SourceType::Submission) => r matches Ok(name) && name@
                == "submission_default_path"@,
            _ => r matches Err(error) && bad_request(error, "Invalid video source type"@),
        },
{
    match parse_source_type(source_type) {
        Ok(SourceType::Favorite) => Ok("favorite_default_path"),
        Ok(SourceType::Collection) => Ok("collection_default_path"),
        Ok(SourceType::Submission) => Ok("submission_default_path"),
        Ok(SourceType::WatchLater) => Err(invalid_type()),
        Err(error) => Err(error),
    }
}

/// A source as it is listed.
#[derive(Debug)]
pub struct VideoSource {
    pub id: i32,
    pub name: String,
}

/// All sources as they are listed.
#[derive(Debug)]
pub struct VideoSourcesResponse {
    pub collection: Vec<VideoSource>,
    pub favorite: Vec<VideoSource>,
    pub submission: Vec<VideoSource>,
    pub watch_later: Vec<VideoSource>,
}

/// The id of the source of everything to watch later, while there is none yet.
pub const DEFAULT_WATCH_LATER: i32 = 1;

/// The ids of the sources of everything to watch later, with the default one where there is none.
pub open spec fn watch_later_shown(ids: Seq<i32>) -> Seq<i32> {
    if ids.len() == 0 {
        seq![DEFAULT_WATCH_LATER]
    } else {
        ids
    }
}

/// Lists all sources. Everything to watch later is a source that is always there: until it is
/// stored, a default one is listed.
pub fn get_video_sources(
    collection: Vec<VideoSource>,
    favorite: Vec<VideoSource>,
    submission: Vec<VideoSource>,
    watch_later_ids: Vec<i32>,
) -> (r: VideoSourcesResponse)
    ensures
        r.collection == collection,
        r.favorite == favorite,
        r.submission == submission,
        r.watch_later@.len() == watch_later_shown(watch_later_ids@).len(),
        forall|i: int|
            0 <= i < r.watch_later@.len() ==> (#[trigger] r.watch_later@[i]).id
                == watch_later_shown(watch_later_ids@)[i] && r.watch_later@[i].name@
                == "稍后再看"@,
{
    let mut watch_later: Vec<VideoSource> = Vec::new();
    let mut i: usize = 0;
    while i < watch_later_ids.len()
        invariant
            i <= watch_later_ids.len(),
            watch_later@.len() == i,
            forall|k: int|
                0 <= k < i ==> (#[trigger] watch_later@[k]).id == watch_later_ids@[k]
                    && watch_later@[k].name@ == "稍后再看"@,
        decreases watch_later_ids.len() - i,
    {
        watch_later.push(
            VideoSource { id: watch_later_ids[i], name: "稍后再看".to_string() },
        );
        i += 1;
    }
    if watch_later.len() == 0 {
        watch_later.push(
            VideoSource { id: DEFAULT_WATCH_LATER, name: "稍后再看".to_string() },
        );
    }
    VideoSourcesResponse { collection, favorite, submission, watch_later }
}

/// A filter rule: in its stored form, and as it is shown to the user.
#[derive(Debug)]
pub struct RuleInfo {
    pub stored: String,
    pub shown: String,
}

/// A source in full.
#[derive(Debug)]
pub struct VideoSourceDetail {
    pub id: i32,
    pub name: String,
    pub path: String,
    pub rule: Option<RuleInfo>,
    /// The stream filter, in its stored form.
    pub filter_option: Option<String>,
    pub rule_display: Option<String>,
    pub use_dynamic_api: Option<bool>,
    pub upper_id: Option<i64>,
    pub enabled: bool,
    pub latest_row_at: Option<Timestamp>,
}

/// All sources in full.
#[derive(Debug)]
pub struct VideoSourcesDetailsResponse {
    pub collections: Vec<VideoSourceDetail>,
    pub favorites: Vec<VideoSourceDetail>,
    pub submissions: Vec<VideoSourceDetail>,
    pub watch_later: Vec<VideoSourceDetail>,
}

/// A source as it is answered: its rule is shown in words, and second zero of the epoch stands
/// for no time at all.
pub open spec fn detail_answer(detail: VideoSourceDetail) -> VideoSourceDetail {
    VideoSourceDetail {
        rule_display: match detail.rule {
            Some(rule) => Some(rule.shown),
            None => detail.rule_display,
        },
        latest_row_at: match detail.latest_row_at {
            Some(at) if at.secs != 0 => Some(at),
            _ => None,
        },
        ..detail
    }
}

/// The source of everything to watch later, before there is one.
pub open spec fn is_default_watch_later(detail: VideoSourceDetail) -> bool {
    &&& detail.id == DEFAULT_WATCH_LATER
    &&& detail.name@ == "稍后再看"@
    &&& detail.path@ == Seq::<char>::empty()
    &&& detail.rule is None
    &&& detail.filter_option is None
    &&& detail.rule_display is None
    &&& detail.use_dynamic_api is None
    &&& detail.upper_id is None
    &&& !detail.enabled
    &&& detail.latest_row_at is None
}

fn show_details(details: Vec<VideoSourceDetail>) -> (r: Vec<VideoSourceDetail>)
    ensures
        r@ == details@.map_values(|detail: VideoSourceDetail| detail_answer(detail)),
{
    let ghost all = details@;
    let mut r: Vec<VideoSourceDetail> = Vec::new();
    for detail in it: details.into_iter()
        invariant
            it.seq() == all,
            r@ == all.take(it.index() as int).map_values(
                |detail: VideoSourceDetail| detail_answer(detail),
            ),
    {
        let rule_display: Option<String> = match &detail.rule {
            Some(rule) => Some(rule.shown.clone()),
            None => detail.rule_display,
        };
        let latest_row_at: Option<Timestamp> = match detail.latest_row_at {
            Some(at) => if at.is_epoch() {
                None
            } else {
                Some(at)
            },
            None => None,
        };
        r.push(
            VideoSourceDetail {
                id: detail.id,
                name: detail.name,
                path: detail.path,
                rule: detail.rule,
                filter_option: detail.filter_option,
                rule_display,
                use_dynamic_api: detail.use_dynamic_api,
                upper_id: detail.upper_id,
                enabled: detail.enabled,
                latest_row_at,
            },
        );
        assert(r@ =~= all.take(it.index() + 1).map_values(
            |detail: VideoSourceDetail| detail_answer(detail),
        ));
    }
    assert(all.take(all.len() as int) =~= all);
    r
}

/// Shows all sources in full. Until there is a source of everything to watch later, a default one
/// is shown, disabled and without a path.
pub fn get_video_sources_details(
    collections: Vec<VideoSourceDetail>,
    favorites: Vec<VideoSourceDetail>,
    submissions: Vec<VideoSourceDetail>,
    watch_later: Vec<VideoSourceDetail>,
) -> (r: VideoSourcesDetailsResponse)
    ensures
        r.collections@ == collections@.map_values(
            |detail: VideoSourceDetail| detail_answer(detail),
        ),
        r.favorites@ == favorites@.map_values(|detail: VideoSourceDetail| detail_answer(detail)),
        r.submissions@ == submissions@.map_values(
            |detail: VideoSourceDetail| detail_answer(detail),
        ),
        if watch_later@.len() == 0 {
            r.watch_later@.len() == 1 && is_default_watch_later(r.watch_later@[0])
        } else {
            r.watch_later@ == watch_later@.map_values(
                |detail: VideoSourceDetail| detail_answer(detail),
            )
        },
{
    let mut watch_later = watch_later;
    if watch_later.len() == 0 {
        watch_later.push(
            VideoSourceDetail {
                id: DEFAULT_WATCH_LATER,
                name: "稍后再看".to_string(),
                path: String::new(),
                rule: None,
                filter_option: None,
                rule_display: None,
                use_dynamic_api: None,
                upper_id: None,
                enabled: false,
                latest_row_at: None,
            },
        );
    }
    VideoSourcesDetailsResponse {
        collections: show_details(collections),
        favorites: show_details(favorites),
        submissions: show_details(submissions),
        watch_later: show_details(watch_later),
    }
}

/// What a source is to be changed to.
#[derive(Debug)]
pub struct UpdateVideoSourceRequest {
    pub path: String,
    pub enabled: bool,
    pub rule: Option<RuleInfo>,
    /// The stream filter, in its stored form.
    pub filter_option: Option<String>,
    /// Only submissions have this, and only where it is given it changes.
    pub use_dynamic_api: Option<bool>,
}

/// The answer to a change of a source.
#[derive(Debug)]
pub struct UpdateVideoSourceResponse {
    pub rule_display: Option<String>,
}

/// What the user can set of a source.
#[derive(Debug)]
pub struct SourceSettings {
    pub path: String,
    pub enabled: bool,
    pub rule: Option<String>,
    pub filter_option: Option<String>,
}

/// A collection, a favorite list, or everything to watch later, as it is stored.
#[derive(Debug)]
pub struct SourceRow {
    pub id: i32,
    pub settings: SourceSettings,
}

/// The source that is to be changed, as it is stored, if it is.
#[derive(Debug)]
pub enum StoredSource {
    Collection(Option<SourceRow>),
    Favorite(Option<SourceRow>),
    WatchLater(Option<SourceRow>),
    /// The record is the one just read under the submission's lock.
    Submission(Option<UpperRecord>),
}

/// What is to be stored for a changed source.
#[derive(Debug)]
pub enum SourceSave {
    /// The row takes the place of the stored one.
    Update(SourceRow),
    /// The source of everything to watch later is stored for the first time.
    InsertWatchLater(SourceSettings),
    /// The submission takes the place of the stored one, and its policy row is written as told.
    Submission(UpperRecord, PolicyWrite),
}

/// The stored form of a rule.
pub open spec fn stored_rule(rule: Option<RuleInfo>) -> Option<String> {
    match rule {
        Some(rule) => Some(rule.stored),
        None => None,
    }
}

/// What is told about a rule.
pub open spec fn rule_answer(rule: Option<RuleInfo>) -> UpdateVideoSourceResponse {
    UpdateVideoSourceResponse {
        rule_display: match rule {
            Some(rule) => Some(rule.shown),
            None => None,
        },
    }
}

/// The settings that a request asks for.
pub open spec fn settings_asked(request: UpdateVideoSourceRequest) -> SourceSettings {
    SourceSettings {
        path: request.path,
        enabled: request.enabled,
        rule: stored_rule(request.rule),
        filter_option: request.filter_option,
    }
}

/// The name of a protective policy, as it is shown to the user.
pub open spec fn protection_label(policy: UpperManagePolicy) -> Seq<char> {
    match policy {
        UpperManagePolicy::Whitelist => "白名单"@,
        UpperManagePolicy::Blacklist => "黑名单"@,
        _ => "封禁观察"@,
    }
}

/// The sentence for a request that a policy forbids.
pub open spec fn protection_text(policy: UpperManagePolicy) -> Seq<char> {
    "该 UP 受「"@ + protection_label(policy) + "」保护，请先在 UP 自动管理页面调整策略"@
}

/// The request would enable or disable an uploader whom a policy protects.
pub open spec fn refused(state: UpperState, enabled: bool) -> bool {
    enabled != state.enabled && state.effective_policy().protects()
}

/// The state after the user asked for the uploader to be enabled or disabled, where no policy
/// forbids it. Disabling by hand leaves the policy that leads back; enabling by hand removes it.
pub open spec fn after_request(
    state: UpperState,
    submission_id: i32,
    enabled: bool,
    now: Timestamp,
) -> UpperState {
    if enabled == state.enabled {
        state
    } else if enabled {
        state.with_enabled(true).without_policy()
    } else {
        state.with_enabled(false).with_policy(
            submission_id,
            UpperManagePolicy::Normal,
            UpperManageSource::Auto,
            Some("用户手动禁用"@),
            now,
        )
    }
}

/// What becomes of the stored policy row where no policy forbids the request.
pub open spec fn request_write(state: UpperState, enabled: bool) -> PolicyWrite {
    if enabled == state.enabled {
        PolicyWrite::Keep
    } else if !enabled {
        state.upsert_write()
    } else if state.policy is Some {
        PolicyWrite::Delete
    } else {
        PolicyWrite::Keep
    }
}

/// The submission has the settings that the request asks for, and is otherwise the same.
pub open spec fn submission_updated(
    before: UpperRecord,
    after: UpperRecord,
    request: UpdateVideoSourceRequest,
) -> bool {
    &&& after.submission.id == before.submission.id
    &&& after.submission.upper_id == before.submission.upper_id
    &&& after.submission.upper_name == before.submission.upper_name
    &&& after.submission.path == request.path
    &&& after.submission.rule == stored_rule(request.rule)
    &&& after.submission.filter_option == request.filter_option
    &&& after.submission.use_dynamic_api == (match request.use_dynamic_api {
        Some(wanted) => wanted,
        None => before.submission.use_dynamic_api,
    })
}

/// What a request for a submission is answered and does. `before` is the record just read under
/// the submission's lock.
pub open spec fn submission_result(
    before: UpperRecord,
    request: UpdateVideoSourceRequest,
    now: Timestamp,
    r: Result<(UpperRecord, PolicyWrite), InnerApiError>,
) -> bool {
    if refused(before.state(), request.enabled) {
        r matches Err(InnerApiError::PolicyProtected(text)) && text@ == protection_text(
            before.state().effective_policy(),
        )
    } else {
        r matches Ok((after, write)) && submission_updated(before, after, request) && after.state()
            == after_request(before.state(), before.submission.id, request.enabled, now) && write
            == request_write(before.state(), request.enabled) && (before.wf() ==> after.wf())
    }
}

fn label_of(policy: UpperManagePolicy) -> (r: &'static str)
    ensures
        r@ == protection_label(policy),
{
    match policy {
        UpperManagePolicy::Whitelist => "白名单",
        UpperManagePolicy::Blacklist => "黑名单",
        UpperManagePolicy::Banned | UpperManagePolicy::Normal => "封禁观察",
    }
}

/// Changes a submission, and its policy with it.
///
/// While a whitelist entry, a blacklist entry or a ban is in force, a request that would enable
/// or disable the uploader is refused, and nothing changes. Otherwise, disabling by hand puts the
/// normal automatic policy on the submission, so that it is enabled again on a new video, and
/// enabling by hand removes the policy row.
pub fn update_submission_source(
    record: UpperRecord,
    request: &UpdateVideoSourceRequest,
    now: Timestamp,
) -> (r: Result<(UpperRecord, PolicyWrite), InnerApiError>)
    ensures
        submission_result(record, *request, now, r),
{
    let mut record = record;
    let prior_enabled = record.submission.enabled;
    let changes = request.enabled != prior_enabled;
    if changes {
        if let Some(row) = &record.policy {
            if row.policy.is_protective() {
                let mut text = String::new();
                text.append("该 UP 受「");
                text.append(label_of(row.policy));
                text.append("」保护，请先在 UP 自动管理页面调整策略");
                return Err(InnerApiError::PolicyProtected(text));
            }
        }
    }
    record.submission.path = request.path.clone();
    record.submission.enabled = request.enabled;
    record.submission.rule =
    match &request.rule {
        Some(rule) => Some(rule.stored.clone()),
        None => None,
    };
    record.submission.filter_option =
    match &request.filter_option {
        Some(filter_option) => Some(filter_option.clone()),
        None => None,
    };
    if let Some(use_dynamic_api) = request.use_dynamic_api {
        record.submission.use_dynamic_api = use_dynamic_api;
    }
    let write = if !changes {
        PolicyWrite::Keep
    } else if !request.enabled {
        upsert_policy_txn(
            &mut record,
            UpperManagePolicy::Normal,
            UpperManageSource::Auto,
            Some("用户手动禁用".to_string()),
            now,
        )
    } else if record.policy.is_some() {
        record.policy = None;
        PolicyWrite::Delete
    } else {
        PolicyWrite::Keep
    };
    Ok((record, write))
}

/// What a request for a collection, a favorite list or everything to watch later is answered and
/// does.
pub open spec fn plain_result(
    row: Option<SourceRow>,
    id: i32,
    request: UpdateVideoSourceRequest,
    r: Result<(SourceSave, UpdateVideoSourceResponse), InnerApiError>,
) -> bool {
    match row {
        Some(row) => r == Ok::<(SourceSave, UpdateVideoSourceResponse), InnerApiError>(
            (
                SourceSave::Update(SourceRow { id: row.id, settings: settings_asked(request) }),
                rule_answer(request.rule),
            ),
        ),
        None => r == Err::<(SourceSave, UpdateVideoSourceResponse), InnerApiError>(
            InnerApiError::NotFound(id),
        ),
    }
}

/// Changes a source. One that is not stored is refused, except that the default source of
/// everything to watch later, which is shown before it is stored, is stored with the change.
pub fn update_video_source(
    stored: StoredSource,
    id: i32,
    request: UpdateVideoSourceRequest,
    now: Timestamp,
) -> (r: Result<(SourceSave, UpdateVideoSourceResponse), InnerApiError>)
    ensures
        match stored {
            StoredSource::Collection(row) => plain_result(row, id, request, r),
            StoredSource::Favorite(row) => plain_result(row, id, request, r),
            StoredSource::WatchLater(row) => if row is None && id == DEFAULT_WATCH_LATER {
                r == Ok::<(SourceSave, UpdateVideoSourceResponse), InnerApiError>(
                    (
                        SourceSave::InsertWatchLater(settings_asked(request)),
                        rule_answer(request.rule),
                    ),
                )
            } else {
                plain_result(row, id, request, r)
            },
            StoredSource::Submission(None) => r == Err::<
                (SourceSave, UpdateVideoSourceResponse),
                InnerApiError,
            >(InnerApiError::NotFound(id)),
            StoredSource::Submission(Some(before)) => match r {
                Ok((SourceSave::Submission(after, write), answer)) => submission_result(
                    before,
                    request,
                    now,
                    Ok((after, write)),
                ) && answer == rule_answer(request.rule),
                Ok(_) => false,
                Err(error) => submission_result(before, request, now, Err(error)),
            },
        },
{
    let answer = UpdateVideoSourceResponse {
        rule_display: match &request.rule {
            Some(rule) => Some(rule.shown.clone()),
            None => None,
        },
    };
    let row: Option<SourceRow> = match stored {
        StoredSource::Submission(None) => {
            return Err(InnerApiError::NotFound(id));
        },
        StoredSource::Submission(Some(record)) => {
            return match update_submission_source(record, &request, now) {
                Ok((record, write)) => Ok((SourceSave::Submission(record, write), answer)),
                Err(error) => Err(error),
            };
        },
        StoredSource::WatchLater(None) => {
            if id != DEFAULT_WATCH_LATER {
                return Err(InnerApiError::NotFound(id));
            }
            return Ok((SourceSave::InsertWatchLater(settings_of(request)), answer));
        },
        StoredSource::WatchLater(row) => row,
        StoredSource::Collection(row) => row,
        StoredSource::Favorite(row) => row,
    };
    match row {
        Some(row) => Ok(
            (
                SourceSave::Update(SourceRow { id: row.id, settings: settings_of(request) }),
                answer,
            ),
        ),
        None => Err(InnerApiError::NotFound(id)),
    }
}

fn settings_of(request: UpdateVideoSourceRequest) -> (r: SourceSettings)
    ensures
        r == settings_asked(request),
{
    SourceSettings {
        path: request.path,
        enabled: request.enabled,
        rule: match request.rule {
            Some(rule) => Some(rule.stored),
            None => None,
        },
        filter_option: request.filter_option,
    }
}

/// An uploader disabled by hand is one that the next inspection asks the site about.
pub proof fn law_disabled_by_hand_is_rechecked(
    state: UpperState,
    submission_id: i32,
    now: Timestamp,
)
    requires
        state.enabled,
        !refused(state, false),
    ensures
        after_request(state, submission_id, false, now).recheck_candidate(),
{
}

/// An uploader enabled by hand has no policy row any more: the first phase of an inspection
/// watches it, and the second no longer follows it.
pub proof fn law_enabled_by_hand_is_normal_again(
    state: UpperState,
    submission_id: i32,
    now: Timestamp,
)
    requires
        !state.enabled,
        !refused(state, true),
    ensures
        after_request(state, submission_id, true, now).policy is None,
        after_request(state, submission_id, true, now).inactive_candidate(),
        !after_request(state, submission_id, true, now).recheck_candidate(),
{
}

/// Disabling an unprotected uploader by hand and enabling it again leaves it as it was, but for
/// the policy row, which is gone.
pub proof fn law_enabling_undoes_disabling(
    state: UpperState,
    submission_id: i32,
    now: Timestamp,
    later: Timestamp,
)
    requires
        state.enabled,
        !refused(state, false),
    ensures
        !refused(after_request(state, submission_id, false, now), true),
        after_request(
            after_request(state, submission_id, false, now),
            submission_id,
            true,
            later,
        ) == state.without_policy(),
{
}

/// While a policy protects an uploader, no request enables or disables it, and none touches the
/// policy.
pub proof fn law_requests_respect_protection(
    state: UpperState,
    submission_id: i32,
    enabled: bool,
    now: Timestamp,
)
    requires
        state.effective_policy().protects(),
    ensures
        refused(state, enabled) <==> enabled != state.enabled,
        !refused(state, enabled) ==> after_request(state, submission_id, enabled, now) == state
            && request_write(state, enabled) == PolicyWrite::Keep,
{
}

/// No two kinds of sources share a name.
pub proof fn lemma_names_of_kinds_differ()
    ensures
        "collections"@ != "favorites"@,
        "collections"@ != "submissions"@,
        "collections"@ != "watch_later"@,
        "favorites"@ != "submissions"@,
        "favorites"@ != "watch_later"@,
        "submissions"@ != "watch_later"@,
{
    reveal_strlit("collections");
    reveal_strlit("favorites");
    reveal_strlit("watch_later");
    reveal_strlit("submissions");
    assert("collections"@[0] == 'c');
    assert("favorites"@[0] == 'f');
    assert("watch_later"@[0] == 'w');
    assert("submissions"@[0] == 's');
}

/// Each kind of sources is asked for under its own name, and no other name is accepted.
pub proof fn law_kinds_are_asked_for_by_name(name: &str, r: Result<SourceType, InnerApiError>)
    requires
        call_ensures(parse_source_type, (name,), r),
    ensures
        name@ == "collections"@ <==> (r matches Ok(kind) && kind is Collection),
        name@ == "favorites"@ <==> (r matches Ok(kind) && kind is Favorite),
        name@ == "submissions"@ <==> (r matches Ok(kind) && kind is Submission),
        name@ == "watch_later"@ <==> (r matches Ok(kind) && kind is WatchLater),
        r matches Err(error) ==> (error matches InnerApiError::BadRequest(told) && told@
            == "Invalid video source type"@),
{
    lemma_names_of_kinds_differ();
}

/// What a request does to a submission and is answered, told column by column.
pub open spec fn request_done(
    before: UpperRecord,
    request: UpdateVideoSourceRequest,
    now: Timestamp,
    r: Result<(UpperRecord, PolicyWrite), InnerApiError>,
) -> bool {
    let flips = request.enabled != before.submission.enabled;
    let shielded = before.policy matches Some(row) && (row.policy is Whitelist
        || row.policy is Blacklist || row.policy is Banned);
    &&& r is Err <==> flips && shielded
    &&& r matches Err(error) ==> (error matches InnerApiError::PolicyProtected(text)
        && before.policy matches Some(row) && text@ == "该 UP 受「"@ + (
    if row.policy is Whitelist {
        "白名单"@
    } else if row.policy is Blacklist {
        "黑名单"@
    } else {
        "封禁观察"@
    }) + "」保护，请先在 UP 自动管理页面调整策略"@)
    &&& r matches Ok((after, write)) ==> {
        &&& after.submission.id == before.submission.id
        &&& after.submission.upper_id == before.submission.upper_id
        &&& after.submission.upper_name == before.submission.upper_name
        &&& after.submission.path == request.path
        &&& after.submission.enabled == request.enabled
        &&& after.submission.rule is Some <==> request.rule is Some
        &&& request.rule matches Some(rule) ==> after.submission.rule == Some(rule.stored)
        &&& after.submission.filter_option == request.filter_option
        &&& request.use_dynamic_api matches Some(wanted)
            ==> after.submission.use_dynamic_api == wanted
        &&& request.use_dynamic_api is None ==> after.submission.use_dynamic_api
            == before.submission.use_dynamic_api
        &&& !flips ==> same_row(before.policy, after.policy) && write is Keep
        &&& flips && request.enabled ==> after.policy is None && (
        if before.policy is Some {
            write is Delete
        } else {
            write is Keep
        })
        &&& flips && !request.enabled ==> row_holds(
            after.policy,
            before.submission.id,
            UpperManagePolicy::Normal,
            UpperManageSource::Auto,
            Some("用户手动禁用"@),
            now,
        ) && (if before.policy is Some {
            write is Update
        } else {
            write is Insert
        })
    }
}

/// A request for a submission is refused exactly where it would change the flag of an uploader
/// under a whitelist entry, a blacklist entry or a ban, and the refusal names which. Otherwise the
/// submission gets the path, the flag, the rule and the stream filter that are asked for, and the
/// way of fetching where one is; nothing else of it changes. Where the flag changes, disabling puts
/// the automatic normal policy on the submission and enabling takes its row away; where it does
/// not, the row stays as it is.
pub proof fn law_requests_change_what_they_ask_for(
    before: UpperRecord,
    request: UpdateVideoSourceRequest,
    now: Timestamp,
    r: Result<(UpperRecord, PolicyWrite), InnerApiError>,
)
    requires
        call_ensures(update_submission_source, (before, &request, now), r),
    ensures
        request_done(before, request, now, r),
{
}

/// The two rows say the same, or neither is there.
pub open spec fn same_row(a: Option<PolicyRow>, b: Option<PolicyRow>) -> bool {
    match a {
        None => b is None,
        Some(row) => row_holds(
            b,
            row.submission_id,
            row.policy,
            row.source,
            match row.reason {
                Some(text) => Some(text@),
                None => None,
            },
            row.updated_at,
        ),
    }
}

/// The settings are those that the request asks for.
pub open spec fn settings_match(
    settings: SourceSettings,
    request: UpdateVideoSourceRequest,
) -> bool {
    &&& settings.path == request.path
    &&& settings.enabled == request.enabled
    &&& settings.filter_option == request.filter_option
    &&& settings.rule is Some <==> request.rule is Some
    &&& request.rule matches Some(rule) ==> settings.rule == Some(rule.stored)
}

/// A source that is stored gets the settings that are asked for, under its own id, and one that is
/// not is refused with the id that was asked for. Only everything to watch later, under id 1, is
/// stored with them for the first time. A submission is changed as on its own. The answer shows the
/// rule in words, where there is one.
pub proof fn law_changes_reach_the_stored_source(
    stored: StoredSource,
    id: i32,
    request: UpdateVideoSourceRequest,
    now: Timestamp,
    r: Result<(SourceSave, UpdateVideoSourceResponse), InnerApiError>,
)
    requires
        call_ensures(update_video_source, (stored, id, request, now), r),
    ensures
        r matches Ok((_, answer)) ==> (answer.rule_display is Some <==> request.rule is Some)
            && (request.rule matches Some(rule) ==> answer.rule_display == Some(rule.shown)),
        match stored {
            StoredSource::Collection(Some(row))
            | StoredSource::Favorite(Some(row))
            | StoredSource::WatchLater(Some(row)) => r matches Ok((SourceSave::Update(saved), _))
                && saved.id == row.id && settings_match(saved.settings, request),
            StoredSource::WatchLater(None) => if id == 1 {
                r matches Ok((SourceSave::InsertWatchLater(settings), _)) && settings_match(
                    settings,
                    request,
                )
            } else {
                r == Err::<(SourceSave, UpdateVideoSourceResponse), InnerApiError>(
                    InnerApiError::NotFound(id),
                )
            },
            StoredSource::Collection(None) | StoredSource::Favorite(None)
            | StoredSource::Submission(None) => r == Err::<
                (SourceSave, UpdateVideoSourceResponse),
                InnerApiError,
            >(InnerApiError::NotFound(id)),
            StoredSource::Submission(Some(before)) => match r {
                Ok((save, _)) => save matches SourceSave::Submission(after, write) && request_done(
                    before,
                    request,
                    now,
                    Ok((after, write)),
                ),
                Err(error) => request_done(before, request, now, Err(error)),
            },
        },
{
}

/// All sources are listed as they are. Everything to watch later is called "稍后再看", and while
/// it is not stored it is listed once, under id 1.
pub proof fn law_sources_are_listed_as_they_are(
    collection: Vec<VideoSource>,
    favorite: Vec<VideoSource>,
    submission: Vec<VideoSource>,
    watch_later_ids: Vec<i32>,
    r: VideoSourcesResponse,
)
    requires
        call_ensures(get_video_sources, (collection, favorite, submission, watch_later_ids), r),
    ensures
        r.collection == collection,
        r.favorite == favorite,
        r.submission == submission,
        watch_later_ids@.len() == 0 ==> r.watch_later@.len() == 1 && r.watch_later@[0].id == 1
            && r.watch_later@[0].name@ == "稍后再看"@,
        watch_later_ids@.len() > 0 ==> r.watch_later@.len() == watch_later_ids@.len()
            && forall|i: int|
            0 <= i < watch_later_ids@.len() ==> (#[trigger] r.watch_later@[i]).id
                == watch_later_ids@[i] && r.watch_later@[i].name@ == "稍后再看"@,
{
}

/// The source is shown as it is, with its rule in words and with the time of its newest row, for
/// which second zero of the epoch stands for none.
pub open spec fn is_shown(source: VideoSourceDetail, shown: VideoSourceDetail) -> bool {
    &&& shown.id == source.id
    &&& shown.name == source.name
    &&& shown.path == source.path
    &&& shown.rule == source.rule
    &&& shown.filter_option == source.filter_option
    &&& shown.use_dynamic_api == source.use_dynamic_api
    &&& shown.upper_id == source.upper_id
    &&& shown.enabled == source.enabled
    &&& source.rule matches Some(rule) ==> shown.rule_display == Some(rule.shown)
    &&& source.rule is None ==> shown.rule_display == source.rule_display
    &&& source.latest_row_at matches Some(at) ==> shown.latest_row_at == (if at.secs == 0 {
        None
    } else {
        Some(at)
    })
    &&& source.latest_row_at is None ==> shown.latest_row_at is None
}

/// Each of the sources is shown, in its place.
pub open spec fn are_shown(
    sources: Seq<VideoSourceDetail>,
    shown: Seq<VideoSourceDetail>,
) -> bool {
    sources.len() == shown.len() && forall|i: int|
        0 <= i < sources.len() ==> is_shown(sources[i], #[trigger] shown[i])
}

/// All sources are shown in full, each in its place. While everything to watch later is not
/// stored it is shown once, under id 1, disabled, and without a path or anything else.
pub proof fn law_sources_are_shown_in_full(
    collections: Vec<VideoSourceDetail>,
    favorites: Vec<VideoSourceDetail>,
    submissions: Vec<VideoSourceDetail>,
    watch_later: Vec<VideoSourceDetail>,
    r: VideoSourcesDetailsResponse,
)
    requires
        call_ensures(
            get_video_sources_details,
            (collections, favorites, submissions, watch_later),
            r,
        ),
    ensures
        are_shown(collections@, r.collections@),
        are_shown(favorites@, r.favorites@),
        are_shown(submissions@, r.submissions@),
        watch_later@.len() > 0 ==> are_shown(watch_later@, r.watch_later@),
        watch_later@.len() == 0 ==> {
            &&& r.watch_later@.len() == 1
            &&& r.watch_later@[0].id == 1
            &&& r.watch_later@[0].name@ == "稍后再看"@
            &&& r.watch_later@[0].path@.len() == 0
            &&& !r.watch_later@[0].enabled
            &&& r.watch_later@[0].rule is None
            &&& r.watch_later@[0].filter_option is None
            &&& r.watch_later@[0].rule_display is None
            &&& r.watch_later@[0].use_dynamic_api is None
            &&& r.watch_later@[0].upper_id is None
            &&& r.watch_later@[0].latest_row_at is None
        },
{
}

/// A new favorite list, collection or submission gets its path from the template of its kind; no
/// other name has a template.
pub proof fn law_default_paths_have_templates(
    name: &str,
    r: Result<&'static str, InnerApiError>,
)
    requires
        call_ensures(default_path_template, (name,), r),
    ensures
        name@ == "favorites"@ ==> (r matches Ok(template) && template@
            == "favorite_default_path"@),
        name@ == "collections"@ ==> (r matches Ok(template) && template@
            == "collection_default_path"@),
        name@ == "submissions"@ ==> (r matches Ok(template) && template@
            == "submission_default_path"@),
        name@ != "favorites"@ && name@ != "collections"@ && name@ != "submissions"@ ==> (
        r matches Err(error) && error matches InnerApiError::BadRequest(told) && told@
            == "Invalid video source type"@),
{
    lemma_names_of_kinds_differ();
}

} // verus!
