//! The part of the web interface that shows and changes what the automatic management does:
//! what it accepts, what it refuses, and what it answers.
use vstd::prelude::*;

use crate::alphabet::{put_by_name, Named};
use crate::config::{Trigger, UpperAutoManageOption};
use crate::paging::{action_page, run_page, take_page, ListResponse, PageQuery};
use crate::policy::{
    reset_policy_after_delete, upsert_policy_txn, PolicyRow, PolicyWrite, SubmissionRow,
    UpperManagePolicy, UpperManageSource, UpperRecord,
};
use crate::recency::{pick_newest, put_newest_first, Dated};
use crate::round::{ActionType, RunRow, RunStatus};
use crate::task::{TaskStatus, TaskTrigger};
use crate::text::{prefixed, str_eq};
use crate::time::Timestamp;

verus! {

use crate::alphabet::{by_name, is_by_name, law_by_name_orders_the_rows, text_before};
use crate::paging::{
    lemma_page_of, page_of, page_shown, shows_page, ACTION_PAGE_SIZE, MAX_ACTION_PAGE_SIZE,
    MAX_RUN_PAGE_SIZE, RUN_PAGE_SIZE,
};
use crate::policy::{row_holds, text_view};
use crate::recency::{law_newest_first_orders_the_rows, newest, newest_first};
use crate::seqs::{drawn_from, lemma_filter_map_is_drawn};

/// Why a request is refused.
#[derive(Debug)]
pub enum InnerApiError {
    /// There is nothing under this id.
    NotFound(i32),
    /// The request makes no sense; this says why.
    BadRequest(String),
    /// A policy protects the uploader; this says which, and what to do about it.
    PolicyProtected(String),
}

impl InnerApiError {
    /// The HTTP status of the refusal.
    pub open spec fn status(self) -> u16 {
        match self {
            InnerApiError::NotFound(_) => 404,
            InnerApiError::BadRequest(_) => 400,
            InnerApiError::PolicyProtected(_) => 409,
        }
    }

    /// The HTTP status of the refusal.
    pub fn status_code(&self) -> (r: u16)
        ensures
            r == self.status(),
    {
        match self {
            InnerApiError::NotFound(_) => 404,
            InnerApiError::BadRequest(_) => 400,
            InnerApiError::PolicyProtected(_) => 409,
        }
    }
}

/// The name of a policy, in requests and in the database.
pub open spec fn policy_name(policy: UpperManagePolicy) -> Seq<char> {
    match policy {
        UpperManagePolicy::Normal => "normal"@,
        UpperManagePolicy::Whitelist => "whitelist"@,
        UpperManagePolicy::Blacklist => "blacklist"@,
        UpperManagePolicy::Banned => "banned"@,
    }
}

/// The name of an action, in requests and in the database.
pub open spec fn action_name(action: ActionType) -> Seq<char> {
    match action {
        ActionType::AutoDisabled => "auto_disabled"@,
        ActionType::AutoEnabled => "auto_enabled"@,
        ActionType::MarkedBanned => "marked_banned"@,
    }
}

/// The policy under a name, if there is one.
pub open spec fn policy_named(name: Seq<char>) -> Option<UpperManagePolicy> {
    if name == "normal"@ {
        Some(UpperManagePolicy::Normal)
    } else if name == "whitelist"@ {
        Some(UpperManagePolicy::Whitelist)
    } else if name == "blacklist"@ {
        Some(UpperManagePolicy::Blacklist)
    } else if name == "banned"@ {
        Some(UpperManagePolicy::Banned)
    } else {
        None
    }
}

/// The action under a name, if there is one.
pub open spec fn action_named(name: Seq<char>) -> Option<ActionType> {
    if name == "auto_disabled"@ {
        Some(ActionType::AutoDisabled)
    } else if name == "auto_enabled"@ {
        Some(ActionType::AutoEnabled)
    } else if name == "marked_banned"@ {
        Some(ActionType::MarkedBanned)
    } else {
        None
    }
}

/// The name of a policy, in requests and in the database.
pub fn policy_to_name(policy: UpperManagePolicy) -> (r: &'static str)
    ensures
        r@ == policy_name(policy),
{
    match policy {
        UpperManagePolicy::Normal => "normal",
        UpperManagePolicy::Whitelist => "whitelist",
        UpperManagePolicy::Blacklist => "blacklist",
        UpperManagePolicy::Banned => "banned",
    }
}

/// The name of an action, in requests and in the database.
pub fn action_to_name(action: ActionType) -> (r: &'static str)
    ensures
        r@ == action_name(action),
{
    match action {
        ActionType::AutoDisabled => "auto_disabled",
        ActionType::AutoEnabled => "auto_enabled",
        ActionType::MarkedBanned => "marked_banned",
    }
}

/// The refusal is that of a bad request, with this explanation.
pub open spec fn bad_request(error: InnerApiError, text: Seq<char>) -> bool {
    error matches InnerApiError::BadRequest(told) && told@ == text
}

/// The policy under a name. Any other name is refused.
pub fn parse_policy(s: &str) -> (r: Result<UpperManagePolicy, InnerApiError>)
    ensures
        match policy_named(s@) {
            Some(policy) => r == Ok::<UpperManagePolicy, InnerApiError>(policy),
            None => r matches Err(error) && bad_request(error, "invalid policy: "@ + s@),
        },
{
    if str_eq(s, "normal") {
        Ok(UpperManagePolicy::Normal)
    } else if str_eq(s, "whitelist") {
        Ok(UpperManagePolicy::Whitelist)
    } else if str_eq(s, "blacklist") {
        Ok(UpperManagePolicy::Blacklist)
    } else if str_eq(s, "banned") {
        Ok(UpperManagePolicy::Banned)
    } else {
        Err(InnerApiError::BadRequest(prefixed("invalid policy: ", s)))
    }
}

/// The action under a name. Any other name is refused.
pub fn parse_action(s: &str) -> (r: Result<ActionType, InnerApiError>)
    ensures
        match action_named(s@) {
            Some(action) => r == Ok::<ActionType, InnerApiError>(action),
            None => r matches Err(error) && bad_request(error, "invalid action: "@ + s@),
        },
{
    if str_eq(s, "auto_disabled") {
        Ok(ActionType::AutoDisabled)
    } else if str_eq(s, "auto_enabled") {
        Ok(ActionType::AutoEnabled)
    } else if str_eq(s, "marked_banned") {
        Ok(ActionType::MarkedBanned)
    } else {
        Err(InnerApiError::BadRequest(prefixed("invalid action: ", s)))
    }
}

/// The name of a policy is read back as that policy.
pub proof fn law_policy_names_read_back(policy: UpperManagePolicy)
    ensures
        policy_named(policy_name(policy)) == Some(policy),
{
    reveal_strlit("normal");
    reveal_strlit("whitelist");
    reveal_strlit("blacklist");
    reveal_strlit("banned");
    assert("normal"@[0] == 'n');
    assert("whitelist"@[0] == 'w');
    assert("blacklist"@[0] == 'b' && "blacklist"@[1] == 'l');
    assert("banned"@[0] == 'b' && "banned"@[1] == 'a');
}

/// The name of an action is read back as that action.
pub proof fn law_action_names_read_back(action: ActionType)
    ensures
        action_named(action_name(action)) == Some(action),
{
    reveal_strlit("auto_disabled");
    reveal_strlit("auto_enabled");
    reveal_strlit("marked_banned");
    assert("auto_disabled"@[0] == 'a' && "auto_disabled"@[5] == 'd');
    assert("auto_enabled"@[0] == 'a' && "auto_enabled"@[5] == 'e');
    assert("marked_banned"@[0] == 'm');
}

/// Which actions are asked for.
#[derive(Debug)]
pub struct ActionQuery {
    pub run_id: Option<i32>,
    pub submission_id: Option<i32>,
    pub action: Option<String>,
    pub page: Option<u64>,
    pub page_size: Option<u64>,
}

/// Which actions are shown: those of a run, of a submission, of a type, where these are given.
#[derive(Clone, Copy, Debug, PartialEq, Eq, Structural)]
pub struct ActionFilter {
    pub run_id: Option<i32>,
    pub submission_id: Option<i32>,
    pub action: Option<ActionType>,
}

impl ActionFilter {
    /// The filter lets the action through.
    pub open spec fn admits(self, action: ActionModel) -> bool {
        &&& self.run_id matches Some(run_id) ==> action.run_id == run_id
        &&& self.submission_id matches Some(submission_id) ==> action.submission_id
            == submission_id
        &&& self.action matches Some(kind) ==> action.action == kind
    }

    fn lets_through(&self, action: &ActionModel) -> (r: bool)
        ensures
            r == self.admits(*action),
    {
        let run = match self.run_id {
            Some(run_id) => action.run_id == run_id,
            None => true,
        };
        let submission = match self.submission_id {
            Some(submission_id) => action.submission_id == submission_id,
            None => true,
        };
        let kind = match self.action {
            Some(kind) => action.action == kind,
            None => true,
        };
        run && submission && kind
    }
}

/// A run as it is answered.
#[derive(Debug)]
pub struct RunDto {
    pub id: i32,
    pub started_at: Timestamp,
    pub finished_at: Option<Timestamp>,
    pub status: RunStatus,
    pub checked_count: i32,
    pub disabled_count: i32,
    pub enabled_count: i32,
    pub banned_count: i32,
    pub banned_observation_count: i32,
    pub active_count: i32,
    pub indeterminate_count: i32,
    pub still_inactive_count: i32,
    pub error_message: Option<String>,
    pub summary: Option<String>,
}

/// What is answered about a run.
pub open spec fn run_answer(m: RunRow) -> RunDto {
    RunDto {
        id: m.id,
        started_at: m.started_at,
        finished_at: m.finished_at,
        status: m.status,
        checked_count: m.stats.checked,
        disabled_count: m.stats.disabled,
        enabled_count: m.stats.enabled,
        banned_count: m.stats.banned,
        banned_observation_count: m.stats.banned_observation,
        active_count: m.stats.active,
        indeterminate_count: m.stats.indeterminate,
        still_inactive_count: m.stats.still_inactive,
        error_message: m.error_message,
        summary: m.summary,
    }
}

impl From<RunRow> for RunDto {
    fn from(m: RunRow) -> (r: Self) {
        RunDto {
            id: m.id,
            started_at: m.started_at,
            finished_at: m.finished_at,
            status: m.status,
            checked_count: m.stats.checked,
            disabled_count: m.stats.disabled,
            enabled_count: m.stats.enabled,
            banned_count: m.stats.banned,
            banned_observation_count: m.stats.banned_observation,
            active_count: m.stats.active,
            indeterminate_count: m.stats.indeterminate,
            still_inactive_count: m.stats.still_inactive,
            error_message: m.error_message,
            summary: m.summary,
        }
    }
}

impl vstd::std_specs::convert::FromSpecImpl<RunRow> for RunDto {
    open spec fn obeys_from_spec() -> bool {
        true
    }

    open spec fn from_spec(m: RunRow) -> Self {
        run_answer(m)
    }
}

/// An action on record, with its id.
#[derive(Debug)]
pub struct ActionModel {
    pub id: i32,
    pub run_id: i32,
    pub submission_id: i32,
    pub upper_name: String,
    pub action: ActionType,
    pub reason: Option<String>,
    pub created_at: Timestamp,
}

/// An action as it is answered.
#[derive(Debug)]
pub struct ActionDto {
    pub id: i32,
    pub run_id: i32,
    pub submission_id: i32,
    pub upper_name: String,
    pub action: ActionType,
    pub reason: Option<String>,
    pub created_at: Timestamp,
}

/// What is answered about an action.
pub open spec fn action_answer(m: ActionModel) -> ActionDto {
    ActionDto {
        id: m.id,
        run_id: m.run_id,
        submission_id: m.submission_id,
        upper_name: m.upper_name,
        action: m.action,
        reason: m.reason,
        created_at: m.created_at,
    }
}

impl From<ActionModel> for ActionDto {
    fn from(m: ActionModel) -> (r: Self) {
        ActionDto {
            id: m.id,
            run_id: m.run_id,
            submission_id: m.submission_id,
            upper_name: m.upper_name,
            action: m.action,
            reason: m.reason,
            created_at: m.created_at,
        }
    }
}

impl vstd::std_specs::convert::FromSpecImpl<ActionModel> for ActionDto {
    open spec fn obeys_from_spec() -> bool {
        true
    }

    open spec fn from_spec(m: ActionModel) -> Self {
        action_answer(m)
    }
}

/// A run of the download task, on record.
#[derive(Debug)]
pub struct DownloadRunRow {
    pub id: i32,
    pub started_at: Timestamp,
    pub finished_at: Option<Timestamp>,
    pub status: RunStatus,
    pub trigger: TaskTrigger,
    pub error_message: Option<String>,
}

/// A run of the download task as it is answered.
#[derive(Debug)]
pub struct DownloadRunDto {
    pub id: i32,
    pub started_at: Timestamp,
    pub finished_at: Option<Timestamp>,
    pub status: RunStatus,
    pub trigger: TaskTrigger,
    pub error_message: Option<String>,
}

/// What is answered about a run of the download task.
pub open spec fn download_run_answer(m: DownloadRunRow) -> DownloadRunDto {
    DownloadRunDto {
        id: m.id,
        started_at: m.started_at,
        finished_at: m.finished_at,
        status: m.status,
        trigger: m.trigger,
        error_message: m.error_message,
    }
}

impl From<DownloadRunRow> for DownloadRunDto {
    fn from(m: DownloadRunRow) -> (r: Self) {
        DownloadRunDto {
            id: m.id,
            started_at: m.started_at,
            finished_at: m.finished_at,
            status: m.status,
            trigger: m.trigger,
            error_message: m.error_message,
        }
    }
}

impl vstd::std_specs::convert::FromSpecImpl<DownloadRunRow> for DownloadRunDto {
    open spec fn obeys_from_spec() -> bool {
        true
    }

    open spec fn from_spec(m: DownloadRunRow) -> Self {
        download_run_answer(m)
    }
}

/// A run bears the date of its start.
impl Dated for RunRow {
    open spec fn moment(&self) -> Timestamp {
        self.started_at
    }

    fn dated(&self) -> (r: Timestamp) {
        self.started_at
    }
}

/// An action bears the date on which it was put on record.
impl Dated for ActionModel {
    open spec fn moment(&self) -> Timestamp {
        self.created_at
    }

    fn dated(&self) -> (r: Timestamp) {
        self.created_at
    }
}

/// A run of the download task bears the date of its start.
impl Dated for DownloadRunRow {
    open spec fn moment(&self) -> Timestamp {
        self.started_at
    }

    fn dated(&self) -> (r: Timestamp) {
        self.started_at
    }
}

fn answer_runs(rows: Vec<RunRow>) -> (r: Vec<RunDto>)
    ensures
        r@ == rows@.map_values(|m: RunRow| run_answer(m)),
{
    let ghost all = rows@;
    let mut r: Vec<RunDto> = Vec::new();
    for row in it: rows.into_iter()
        invariant
            it.seq() == all,
            r@ == all.take(it.index() as int).map_values(|m: RunRow| run_answer(m)),
    {
        r.push(RunDto::from(row));
        assert(r@ =~= all.take(it.index() + 1).map_values(|m: RunRow| run_answer(m)));
    }
    assert(all.take(all.len() as int) =~= all);
    r
}

/// A page of the runs, newest first, as it is answered.
pub fn list_runs(rows: Vec<RunRow>, query: &PageQuery) -> (r: ListResponse<RunDto>)
    ensures
        r.total_count == rows@.len(),
        r.items@ == page_of(
            newest_first(rows@),
            page_shown(query.page, query.page_size, RUN_PAGE_SIZE, MAX_RUN_PAGE_SIZE),
        ).map_values(|m: RunRow| run_answer(m)),
{
    let total_count: u64 = rows.len() as u64;
    let ordered = put_newest_first(rows);
    ListResponse { total_count, items: answer_runs(take_page(ordered, run_page(query))) }
}

fn answer_actions(rows: Vec<ActionModel>) -> (r: Vec<ActionDto>)
    ensures
        r@ == rows@.map_values(|m: ActionModel| action_answer(m)),
{
    let ghost all = rows@;
    let mut r: Vec<ActionDto> = Vec::new();
    for row in it: rows.into_iter()
        invariant
            it.seq() == all,
            r@ == all.take(it.index() as int).map_values(|m: ActionModel| action_answer(m)),
    {
        r.push(ActionDto::from(row));
        assert(r@ =~= all.take(it.index() + 1).map_values(|m: ActionModel| action_answer(m)));
    }
    assert(all.take(all.len() as int) =~= all);
    r
}

/// The actions that a filter lets through.
pub open spec fn admitted(rows: Seq<ActionModel>, filter: ActionFilter) -> Seq<ActionModel> {
    rows.filter_map(
        |row: ActionModel|
            if filter.admits(row) {
                Some(row)
            } else {
                None
            },
    )
}

fn keep_admitted(rows: Vec<ActionModel>, filter: ActionFilter) -> (r: Vec<ActionModel>)
    ensures
        r@ == admitted(rows@, filter),
{
    let ghost all = rows@;
    let mut r: Vec<ActionModel> = Vec::new();
    for row in it: rows.into_iter()
        invariant
            it.seq() == all,
            r@ == admitted(all.take(it.index() as int), filter),
    {
        proof {
            assert(all.take(it.index() + 1).drop_last() =~= all.take(it.index() as int));
        }
        if filter.lets_through(&row) {
            r.push(row);
        }
    }
    assert(all.take(all.len() as int) =~= all);
    r
}

/// A page of the actions of a run, newest first, as it is answered. The actions of all runs are
/// given.
pub fn list_run_actions(rows: Vec<ActionModel>, run_id: i32, query: &PageQuery) -> (r: ListResponse<
    ActionDto,
>)
    ensures
        ({
            let own = admitted(
                rows@,
                ActionFilter { run_id: Some(run_id), submission_id: None, action: None },
            );
            &&& r.total_count == own.len()
            &&& r.items@ == page_of(
                newest_first(own),
                page_shown(query.page, query.page_size, ACTION_PAGE_SIZE, MAX_ACTION_PAGE_SIZE),
            ).map_values(|m: ActionModel| action_answer(m))
        }),
{
    let own = keep_admitted(
        rows,
        ActionFilter { run_id: Some(run_id), submission_id: None, action: None },
    );
    let total_count: u64 = own.len() as u64;
    let ordered = put_newest_first(own);
    ListResponse { total_count, items: answer_actions(take_page(ordered, action_page(query))) }
}

/// What filter a query asks for; an action that does not exist asks for none.
pub open spec fn filter_asked(query: ActionQuery) -> ActionFilter {
    ActionFilter {
        run_id: query.run_id,
        submission_id: query.submission_id,
        action: match query.action {
            Some(name) => action_named(name@),
            None => None,
        },
    }
}

/// A page of the actions that are asked for, newest first, as it is answered. All actions are
/// given. An action type that does not exist is refused.
pub fn list_actions(rows: Vec<ActionModel>, query: &ActionQuery) -> (r: Result<
    ListResponse<ActionDto>,
    InnerApiError,
>)
    ensures
        match query.action {
            Some(name) if action_named(name@) is None => r matches Err(error) && bad_request(
                error,
                "invalid action: "@ + name@,
            ),
            _ => r matches Ok(list) && list.total_count == admitted(
                rows@,
                filter_asked(*query),
            ).len() && list.items@ == page_of(
                newest_first(admitted(rows@, filter_asked(*query))),
                page_shown(query.page, query.page_size, ACTION_PAGE_SIZE, MAX_ACTION_PAGE_SIZE),
            ).map_values(|m: ActionModel| action_answer(m)),
        },
{
    let action: Option<ActionType> = match &query.action {
        Some(name) => match parse_action(name.as_str()) {
            Ok(action) => Some(action),
            Err(error) => {
                return Err(error);
            },
        },
        None => None,
    };
    let asked = keep_admitted(
        rows,
        ActionFilter { run_id: query.run_id, submission_id: query.submission_id, action },
    );
    let total_count: u64 = asked.len() as u64;
    let shown = action_page(&PageQuery { page: query.page, page_size: query.page_size });
    let ordered = put_newest_first(asked);
    Ok(ListResponse { total_count, items: answer_actions(take_page(ordered, shown)) })
}

fn answer_download_runs(rows: Vec<DownloadRunRow>) -> (r: Vec<DownloadRunDto>)
    ensures
        r@ == rows@.map_values(|m: DownloadRunRow| download_run_answer(m)),
{
    let ghost all = rows@;
    let mut r: Vec<DownloadRunDto> = Vec::new();
    for row in it: rows.into_iter()
        invariant
            it.seq() == all,
            r@ == all.take(it.index() as int).map_values(|m: DownloadRunRow| download_run_answer(m)),
    {
        r.push(DownloadRunDto::from(row));
        assert(r@ =~= all.take(it.index() + 1).map_values(|m: DownloadRunRow| download_run_answer(m)));
    }
    assert(all.take(all.len() as int) =~= all);
    r
}

/// A page of the runs of the download task, newest first, as it is answered.
pub fn list_download_runs(rows: Vec<DownloadRunRow>, query: &PageQuery) -> (r: ListResponse<
    DownloadRunDto,
>)
    ensures
        r.total_count == rows@.len(),
        r.items@ == page_of(
            newest_first(rows@),
            page_shown(query.page, query.page_size, RUN_PAGE_SIZE, MAX_RUN_PAGE_SIZE),
        ).map_values(|m: DownloadRunRow| download_run_answer(m)),
{
    let total_count: u64 = rows.len() as u64;
    let ordered = put_newest_first(rows);
    ListResponse { total_count, items: answer_download_runs(take_page(ordered, run_page(query))) }
}

/// How the automatic management is set up and how it is doing, as it is answered.
#[derive(Debug)]
pub struct UpperAutoManageStatusResponse {
    pub enabled: bool,
    pub interval: Trigger,
    pub inactive_threshold_days: i64,
    pub check_concurrency: usize,
    pub task_status: TaskStatus,
    pub last_run: Option<RunDto>,
}

/// How the automatic management is set up and how it is doing, with the run among `runs` that
/// started last.
pub fn get_status(
    option: &UpperAutoManageOption,
    task_status: TaskStatus,
    runs: Vec<RunRow>,
) -> (r: UpperAutoManageStatusResponse)
    ensures
        r == (UpperAutoManageStatusResponse {
            enabled: option.enabled,
            interval: option.interval,
            inactive_threshold_days: option.inactive_threshold_days,
            check_concurrency: option.check_concurrency,
            task_status,
            last_run: match newest(runs@) {
                Some(run) => Some(run_answer(run)),
                None => None,
            },
        }),
{
    UpperAutoManageStatusResponse {
        enabled: option.enabled,
        interval: option.interval.clone(),
        inactive_threshold_days: option.inactive_threshold_days,
        check_concurrency: option.check_concurrency,
        task_status,
        last_run: match pick_newest(runs) {
            Some(run) => Some(RunDto::from(run)),
            None => None,
        },
    }
}

/// How the download task is set up and how it is doing, as it is answered.
#[derive(Debug)]
pub struct DownloadTaskStatusResponse {
    pub task_status: TaskStatus,
    pub interval: Trigger,
    pub last_run: Option<DownloadRunDto>,
}

/// How the download task is set up and how it is doing, with the run among `runs` that started
/// last.
pub fn get_download_status(
    interval: &Trigger,
    task_status: TaskStatus,
    runs: Vec<DownloadRunRow>,
) -> (r: DownloadTaskStatusResponse)
    ensures
        r == (DownloadTaskStatusResponse {
            task_status,
            interval: *interval,
            last_run: match newest(runs@) {
                Some(run) => Some(download_run_answer(run)),
                None => None,
            },
        }),
{
    DownloadTaskStatusResponse {
        task_status,
        interval: interval.clone(),
        last_run: match pick_newest(runs) {
            Some(run) => Some(DownloadRunDto::from(run)),
            None => None,
        },
    }
}

/// A policy together with its uploader, as it is answered.
#[derive(Debug)]
pub struct PolicyDto {
    pub submission_id: i32,
    pub policy: UpperManagePolicy,
    pub source: UpperManageSource,
    pub reason: Option<String>,
    pub updated_at: Timestamp,
    pub upper_id: i64,
    pub upper_name: String,
    pub enabled: bool,
}

/// Which policies are asked for.
#[derive(Debug)]
pub struct PolicyQuery {
    pub policy: Option<String>,
}

/// What is answered about a policy row, if it is to be shown: rows without an uploader are not.
pub open spec fn policy_answer(
    row: (PolicyRow, Option<SubmissionRow>),
    wanted: Option<UpperManagePolicy>,
) -> Option<PolicyDto> {
    match row.1 {
        Some(submission) if (wanted matches Some(policy) ==> row.0.policy == policy) => Some(
            PolicyDto {
                submission_id: row.0.submission_id,
                policy: row.0.policy,
                source: row.0.source,
                reason: row.0.reason,
                updated_at: row.0.updated_at,
                upper_id: submission.upper_id,
                upper_name: submission.upper_name,
                enabled: submission.enabled,
            },
        ),
        _ => None,
    }
}

fn show_policies(
    rows: Vec<(PolicyRow, Option<SubmissionRow>)>,
    wanted: Option<UpperManagePolicy>,
) -> (r: Vec<PolicyDto>)
    ensures
        r@ == rows@.filter_map(
            |row: (PolicyRow, Option<SubmissionRow>)| policy_answer(row, wanted),
        ),
{
    let ghost all = rows@;
    let ghost pick = |row: (PolicyRow, Option<SubmissionRow>)| policy_answer(row, wanted);
    let mut r: Vec<PolicyDto> = Vec::new();
    for row in it: rows.into_iter()
        invariant
            it.seq() == all,
            pick == (|row: (PolicyRow, Option<SubmissionRow>)| policy_answer(row, wanted)),
            r@ == all.take(it.index() as int).filter_map(pick),
    {
        proof {
            assert(all.take(it.index() + 1).drop_last() =~= all.take(it.index() as int));
        }
        let (policy, submission) = row;
        let shown = match wanted {
            Some(wanted) => policy.policy == wanted,
            None => true,
        };
        if shown {
            if let Some(submission) = submission {
                r.push(
                    PolicyDto {
                        submission_id: policy.submission_id,
                        policy: policy.policy,
                        source: policy.source,
                        reason: policy.reason,
                        updated_at: policy.updated_at,
                        upper_id: submission.upper_id,
                        upper_name: submission.upper_name,
                        enabled: submission.enabled,
                    },
                );
            }
        }
    }
    assert(all.take(all.len() as int) =~= all);
    r
}

/// The policies that are asked for, each with its uploader. A policy that does not exist is
/// refused.
pub fn list_policies(
    rows: Vec<(PolicyRow, Option<SubmissionRow>)>,
    query: &PolicyQuery,
) -> (r: Result<Vec<PolicyDto>, InnerApiError>)
    ensures
        match query.policy {
            Some(name) if policy_named(name@) is None => r matches Err(error) && bad_request(
                error,
                "invalid policy: "@ + name@,
            ),
            Some(name) => r matches Ok(shown) && shown@ == rows@.filter_map(
                |row: (PolicyRow, Option<SubmissionRow>)| policy_answer(row, policy_named(name@)),
            ),
            None => r matches Ok(shown) && shown@ == rows@.filter_map(
                |row: (PolicyRow, Option<SubmissionRow>)| policy_answer(row, None),
            ),
        },
{
    match &query.policy {
        None => Ok(show_policies(rows, None)),
        Some(name) => match parse_policy(name.as_str()) {
            Ok(wanted) => Ok(show_policies(rows, Some(wanted))),
            Err(error) => Err(error),
        },
    }
}

/// An uploader and its policy, if it has one, as they are answered.
#[derive(Debug)]
pub struct CandidateDto {
    pub submission_id: i32,
    pub upper_id: i64,
    pub upper_name: String,
    pub enabled: bool,
    pub policy: Option<UpperManagePolicy>,
    pub source: Option<UpperManageSource>,
}

/// What is answered about an uploader.
pub open spec fn candidate_answer(record: UpperRecord) -> CandidateDto {
    CandidateDto {
        submission_id: record.submission.id,
        upper_id: record.submission.upper_id,
        upper_name: record.submission.upper_name,
        enabled: record.submission.enabled,
        policy: match record.policy {
            Some(row) => Some(row.policy),
            None => None,
        },
        source: match record.policy {
            Some(row) => Some(row.source),
            None => None,
        },
    }
}

/// An uploader is listed under its name.
impl Named for CandidateDto {
    open spec fn title(&self) -> Seq<char> {
        self.upper_name@
    }

    fn named(&self) -> (r: &str) {
        self.upper_name.as_str()
    }
}

/// What is answered about each of the uploaders.
pub open spec fn candidate_answers(records: Seq<UpperRecord>) -> Seq<CandidateDto> {
    records.map_values(|record: UpperRecord| candidate_answer(record))
}

/// All uploaders, each once, whether they have a policy or not, in the order of their names.
pub fn list_candidates(records: &Vec<UpperRecord>) -> (r: Vec<CandidateDto>)
    ensures
        r@ == by_name(candidate_answers(records@)),
        r@.to_multiset() == candidate_answers(records@).to_multiset(),
        is_by_name(r@),
{
    let mut r: Vec<CandidateDto> = Vec::new();
    let mut i: usize = 0;
    while i < records.len()
        invariant
            i <= records.len(),
            r@ == candidate_answers(records@.take(i as int)),
        decreases records.len() - i,
    {
        let record = &records[i];
        r.push(
            CandidateDto {
                submission_id: record.submission.id,
                upper_id: record.submission.upper_id,
                upper_name: record.submission.upper_name.clone(),
                enabled: record.submission.enabled,
                policy: match &record.policy {
                    Some(row) => Some(row.policy),
                    None => None,
                },
                source: match &record.policy {
                    Some(row) => Some(row.source),
                    None => None,
                },
            },
        );
        assert(r@ =~= candidate_answers(records@.take(i + 1)));
        i += 1;
    }
    assert(records@.take(i as int) =~= records@);
    proof {
        law_by_name_orders_the_rows(r@);
    }
    put_by_name(r)
}

/// The policy that the user wants for an uploader.
#[derive(Debug)]
pub struct UpsertPolicyRequest {
    pub policy: String,
    pub reason: Option<String>,
}

/// Puts the policy that the user wants on a submission, as one written by hand. The record is
/// the one just read under the submission's lock, if there is such a submission.
///
/// A submission that does not exist is refused, whatever the policy; so is a policy that does
/// not exist. Either way nothing changes.
pub fn upsert_policy(
    record: &mut Option<UpperRecord>,
    submission_id: i32,
    request: UpsertPolicyRequest,
    now: Timestamp,
) -> (r: Result<PolicyWrite, InnerApiError>)
    ensures
        match *old(record) {
            None => r == Err::<PolicyWrite, InnerApiError>(InnerApiError::NotFound(submission_id))
                && *final(record) == *old(record),
            Some(before) => match policy_named(request.policy@) {
                Some(policy) => {
                    &&& r == Ok::<PolicyWrite, InnerApiError>(before.state().upsert_write())
                    &&& *final(record) matches Some(after) && after.wf() && after.submission
                        == before.submission && after.state() == before.state().with_policy(
                        before.submission.id,
                        policy,
                        UpperManageSource::Manual,
                        text_view(request.reason),
                        now,
                    )
                },
                None => {
                    &&& *final(record) == *old(record)
                    &&& r matches Err(error) && bad_request(
                        error,
                        "invalid policy: "@ + request.policy@,
                    )
                },
            },
        },
{
    match record {
        None => Err(InnerApiError::NotFound(submission_id)),
        Some(record) => match parse_policy(request.policy.as_str()) {
            Ok(policy) => Ok(
                upsert_policy_txn(record, policy, UpperManageSource::Manual, request.reason, now),
            ),
            Err(error) => Err(error),
        },
    }
}

/// Deletes the policy of a submission, as [`reset_policy_after_delete`] does. The record is the
/// one just read under the submission's lock, if there is such a submission.
///
/// A submission that does not exist is refused. One without a policy stays as it is.
pub fn delete_policy(record: &mut Option<UpperRecord>, submission_id: i32, now: Timestamp) -> (r:
    Result<PolicyWrite, InnerApiError>)
    ensures
        match *old(record) {
            None => r == Err::<PolicyWrite, InnerApiError>(InnerApiError::NotFound(submission_id))
                && *final(record) == *old(record),
            Some(before) => match before.policy {
                None => r == Ok::<PolicyWrite, InnerApiError>(PolicyWrite::Keep) && *final(record)
                    == *old(record),
                Some(row) => {
                    &&& *final(record) matches Some(after) && after.wf() && after.submission
                        == before.submission && after.state() == before.state().after_delete(
                        before.submission.id,
                        row.policy,
                        now,
                    )
                    &&& r == Ok::<PolicyWrite, InnerApiError>(
                        match row.policy {
                            UpperManagePolicy::Blacklist
                            | UpperManagePolicy::Banned => PolicyWrite::Update,
                            UpperManagePolicy::Whitelist
                            | UpperManagePolicy::Normal => PolicyWrite::Delete,
                        },
                    )
                },
            },
        },
{
    match record {
        None => Err(InnerApiError::NotFound(submission_id)),
        Some(record) => {
            let original: Option<UpperManagePolicy> = match &record.policy {
                Some(row) => Some(row.policy),
                None => None,
            };
            match original {
                None => Ok(PolicyWrite::Keep),
                Some(policy) => Ok(reset_policy_after_delete(record, policy, now)),
            }
        },
    }
}

/// The names of the policies and of the actions differ.
proof fn lemma_names_differ()
    ensures
        "normal"@ != "whitelist"@,
        "normal"@ != "blacklist"@,
        "normal"@ != "banned"@,
        "whitelist"@ != "blacklist"@,
        "whitelist"@ != "banned"@,
        "blacklist"@ != "banned"@,
        "auto_disabled"@ != "auto_enabled"@,
        "auto_disabled"@ != "marked_banned"@,
        "auto_enabled"@ != "marked_banned"@,
{
    reveal_strlit("normal");
    reveal_strlit("whitelist");
    reveal_strlit("blacklist");
    reveal_strlit("banned");
    reveal_strlit("auto_disabled");
    reveal_strlit("auto_enabled");
    reveal_strlit("marked_banned");
    assert("normal"@[0] == 'n');
    assert("whitelist"@[0] == 'w');
    assert("blacklist"@[0] == 'b' && "blacklist"@[1] == 'l');
    assert("banned"@[0] == 'b' && "banned"@[1] == 'a');
    assert("auto_disabled"@[0] == 'a' && "auto_disabled"@[5] == 'd');
    assert("auto_enabled"@[0] == 'a' && "auto_enabled"@[5] == 'e');
    assert("marked_banned"@[0] == 'm');
}

/// Policies and actions go by these names, both ways, and by no others: any other name is refused
/// and named in the refusal.
pub proof fn law_policies_and_actions_go_by_name(
    text: &str,
    policy: Result<UpperManagePolicy, InnerApiError>,
    action: Result<ActionType, InnerApiError>,
    some_policy: UpperManagePolicy,
    policy_text: &'static str,
    some_action: ActionType,
    action_text: &'static str,
)
    requires
        call_ensures(parse_policy, (text,), policy),
        call_ensures(parse_action, (text,), action),
        call_ensures(policy_to_name, (some_policy,), policy_text),
        call_ensures(action_to_name, (some_action,), action_text),
    ensures
        text@ == "normal"@ <==> (policy matches Ok(found) && found is Normal),
        text@ == "whitelist"@ <==> (policy matches Ok(found) && found is Whitelist),
        text@ == "blacklist"@ <==> (policy matches Ok(found) && found is Blacklist),
        text@ == "banned"@ <==> (policy matches Ok(found) && found is Banned),
        policy matches Err(error) ==> (error matches InnerApiError::BadRequest(told) && told@
            == "invalid policy: "@ + text@),
        text@ == "auto_disabled"@ <==> (action matches Ok(found) && found is AutoDisabled),
        text@ == "auto_enabled"@ <==> (action matches Ok(found) && found is AutoEnabled),
        text@ == "marked_banned"@ <==> (action matches Ok(found) && found is MarkedBanned),
        action matches Err(error) ==> (error matches InnerApiError::BadRequest(told) && told@
            == "invalid action: "@ + text@),
        some_policy is Normal <==> policy_text@ == "normal"@,
        some_policy is Whitelist <==> policy_text@ == "whitelist"@,
        some_policy is Blacklist <==> policy_text@ == "blacklist"@,
        some_policy is Banned <==> policy_text@ == "banned"@,
        some_action is AutoDisabled <==> action_text@ == "auto_disabled"@,
        some_action is AutoEnabled <==> action_text@ == "auto_enabled"@,
        some_action is MarkedBanned <==> action_text@ == "marked_banned"@,
{
    lemma_names_differ();
}

/// A refusal has its HTTP status.
pub proof fn law_refusals_have_a_status(error: InnerApiError, status: u16)
    requires
        call_ensures(InnerApiError::status_code, (&error,), status),
    ensures
        error is NotFound <==> status == 404,
        error is BadRequest <==> status == 400,
        error is PolicyProtected <==> status == 409,
{
}

/// The same rows, the one that started last first.
pub open spec fn is_order_of_runs(rows: Seq<RunRow>, ordered: Seq<RunRow>) -> bool {
    &&& ordered.to_multiset() == rows.to_multiset()
    &&& ordered.len() == rows.len()
    &&& forall|i: int, j: int|
        0 <= i < j < ordered.len() ==> moment_number((#[trigger] ordered[i]).started_at)
            >= moment_number((#[trigger] ordered[j]).started_at)
}

/// The same rows, the one that started last first.
pub open spec fn is_order_of_downloads(
    rows: Seq<DownloadRunRow>,
    ordered: Seq<DownloadRunRow>,
) -> bool {
    &&& ordered.to_multiset() == rows.to_multiset()
    &&& ordered.len() == rows.len()
    &&& forall|i: int, j: int|
        0 <= i < j < ordered.len() ==> moment_number((#[trigger] ordered[i]).started_at)
            >= moment_number((#[trigger] ordered[j]).started_at)
}

/// The same actions, the one that was recorded last first.
pub open spec fn is_order_of_actions(
    rows: Seq<ActionModel>,
    ordered: Seq<ActionModel>,
) -> bool {
    &&& ordered.to_multiset() == rows.to_multiset()
    &&& ordered.len() == rows.len()
    &&& forall|i: int, j: int|
        0 <= i < j < ordered.len() ==> moment_number((#[trigger] ordered[i]).created_at)
            >= moment_number((#[trigger] ordered[j]).created_at)
}

/// A number that grows with time: the seconds count first, then the nanoseconds.
pub open spec fn moment_number(at: Timestamp) -> int {
    at.secs * 4_294_967_296 + at.nanos
}

/// What is shown of a run is what is on record.
pub open spec fn shows_run(m: RunRow, shown: RunDto) -> bool {
    &&& shown.id == m.id
    &&& shown.started_at == m.started_at
    &&& shown.finished_at == m.finished_at
    &&& shown.status == m.status
    &&& shown.checked_count == m.stats.checked
    &&& shown.disabled_count == m.stats.disabled
    &&& shown.enabled_count == m.stats.enabled
    &&& shown.banned_count == m.stats.banned
    &&& shown.banned_observation_count == m.stats.banned_observation
    &&& shown.active_count == m.stats.active
    &&& shown.indeterminate_count == m.stats.indeterminate
    &&& shown.still_inactive_count == m.stats.still_inactive
    &&& shown.error_message == m.error_message
    &&& shown.summary == m.summary
}

/// What is shown of a run of the download task is what is on record.
pub open spec fn shows_download(m: DownloadRunRow, shown: DownloadRunDto) -> bool {
    &&& shown.id == m.id
    &&& shown.started_at == m.started_at
    &&& shown.finished_at == m.finished_at
    &&& shown.status == m.status
    &&& shown.trigger == m.trigger
    &&& shown.error_message == m.error_message
}

/// What is shown of an action is what is on record.
pub open spec fn shows_action(m: ActionModel, shown: ActionDto) -> bool {
    &&& shown.id == m.id
    &&& shown.run_id == m.run_id
    &&& shown.submission_id == m.submission_id
    &&& shown.upper_name == m.upper_name
    &&& shown.action == m.action
    &&& shown.reason == m.reason
    &&& shown.created_at == m.created_at
}

/// The page that is shown where a page and its length are asked for or not.
pub open spec fn is_page_shown(
    page: Option<u64>,
    page_size: Option<u64>,
    usual: int,
    longest: int,
    shown: (int, int),
) -> bool {
    &&& shown.0 == (match page {
        Some(page) => page as int,
        None => 0,
    })
    &&& page_size is None ==> shown.1 == usual
    &&& page_size matches Some(size) ==> (if size < 1 {
        shown.1 == 1
    } else if size > longest {
        shown.1 == longest
    } else {
        shown.1 == size
    })
}

proof fn lemma_runs_in_order(rows: Seq<RunRow>)
    ensures
        is_order_of_runs(rows, newest_first(rows)),
{
    law_newest_first_orders_the_rows(rows);
    let ordered = newest_first(rows);
    assert forall|i: int, j: int| 0 <= i < j < ordered.len() implies moment_number(
        (#[trigger] ordered[i]).started_at,
    ) >= moment_number((#[trigger] ordered[j]).started_at) by {
        assert(!ordered[j].moment().after(ordered[i].moment()));
    }
}

proof fn lemma_downloads_in_order(rows: Seq<DownloadRunRow>)
    ensures
        is_order_of_downloads(rows, newest_first(rows)),
{
    law_newest_first_orders_the_rows(rows);
    let ordered = newest_first(rows);
    assert forall|i: int, j: int| 0 <= i < j < ordered.len() implies moment_number(
        (#[trigger] ordered[i]).started_at,
    ) >= moment_number((#[trigger] ordered[j]).started_at) by {
        assert(!ordered[j].moment().after(ordered[i].moment()));
    }
}

proof fn lemma_actions_in_order(rows: Seq<ActionModel>)
    ensures
        is_order_of_actions(rows, newest_first(rows)),
{
    law_newest_first_orders_the_rows(rows);
    let ordered = newest_first(rows);
    assert forall|i: int, j: int| 0 <= i < j < ordered.len() implies moment_number(
        (#[trigger] ordered[i]).created_at,
    ) >= moment_number((#[trigger] ordered[j]).created_at) by {
        assert(!ordered[j].moment().after(ordered[i].moment()));
    }
}

/// The list tells how many rows there are in all, and shows one page of them in their order.
pub open spec fn lists<T, D>(
    ordered: Seq<T>,
    list: ListResponse<D>,
    shown: (int, int),
    same: spec_fn(T, D) -> bool,
) -> bool {
    list.total_count == ordered.len() && shows_page(ordered, list.items@, shown.0, shown.1, same)
}

/// Runs are listed with the one that started last first, 20 on a page unless another number is
/// asked for, and never more than 100. The list tells how many there are in all, and each run is
/// shown as it is on record. The runs of the download task are listed likewise.
pub proof fn law_runs_are_listed_page_by_page(
    rows: Vec<RunRow>,
    downloads: Vec<DownloadRunRow>,
    query: PageQuery,
    list: ListResponse<RunDto>,
    other: ListResponse<DownloadRunDto>,
    shown: (int, int),
)
    requires
        is_page_shown(query.page, query.page_size, 20, 100, shown),
        call_ensures(list_runs, (rows, &query), list),
        call_ensures(list_download_runs, (downloads, &query), other),
    ensures
        exists|ordered: Seq<RunRow>| #[trigger]
            is_order_of_runs(rows@, ordered) && lists(
                ordered,
                list,
                shown,
                |m: RunRow, dto: RunDto| shows_run(m, dto),
            ),
        exists|ordered: Seq<DownloadRunRow>| #[trigger]
            is_order_of_downloads(downloads@, ordered) && lists(
                ordered,
                other,
                shown,
                |m: DownloadRunRow, dto: DownloadRunDto| shows_download(m, dto),
            ),
{
    let wanted = page_shown(query.page, query.page_size, RUN_PAGE_SIZE, MAX_RUN_PAGE_SIZE);
    lemma_runs_in_order(rows@);
    lemma_page_of(newest_first(rows@), wanted);
    assert(lists(
        newest_first(rows@),
        list,
        shown,
        |m: RunRow, dto: RunDto| shows_run(m, dto),
    ));
    lemma_downloads_in_order(downloads@);
    lemma_page_of(newest_first(downloads@), wanted);
    assert(lists(
        newest_first(downloads@),
        other,
        shown,
        |m: DownloadRunRow, dto: DownloadRunDto| shows_download(m, dto),
    ));
}

/// The actions are those of the list that fit what is asked for.
pub open spec fn are_asked_for(
    rows: Seq<ActionModel>,
    found: Seq<ActionModel>,
    run_id: Option<i32>,
    submission_id: Option<i32>,
    action: Option<Seq<char>>,
) -> bool {
    drawn_from(
        rows,
        found,
        |row: ActionModel|
            (run_id is None || run_id == Some(row.run_id)) && (submission_id is None
                || submission_id == Some(row.submission_id)) && (action is None
                || action == Some("auto_disabled"@) && row.action is AutoDisabled || action == Some(
                "auto_enabled"@,
            ) && row.action is AutoEnabled || action == Some("marked_banned"@)
                && row.action is MarkedBanned),
        |row: ActionModel, one: ActionModel| one == row,
    )
}

proof fn lemma_asked_for(
    rows: Seq<ActionModel>,
    filter: ActionFilter,
    action: Option<Seq<char>>,
)
    requires
        filter.action is None <==> action is None,
        filter.action is Some ==> filter.action == action_named(action->0),
    ensures
        are_asked_for(
            rows,
            admitted(rows, filter),
            filter.run_id,
            filter.submission_id,
            action,
        ),
{
    lemma_names_differ();
    let run_id = filter.run_id;
    let submission_id = filter.submission_id;
    let takes = |row: ActionModel|
        (run_id is None || run_id == Some(row.run_id)) && (submission_id is None || submission_id
            == Some(row.submission_id)) && (action is None || action == Some("auto_disabled"@)
            && row.action is AutoDisabled || action == Some("auto_enabled"@)
            && row.action is AutoEnabled || action == Some("marked_banned"@)
            && row.action is MarkedBanned);
    let pick = |row: ActionModel|
        if filter.admits(row) {
            Some(row)
        } else {
            None
        };
    lemma_filter_map_is_drawn(rows, pick, takes, |row: ActionModel, one: ActionModel| one == row);
}

/// Actions are listed with the one that was recorded last first, 50 on a page unless another
/// number is asked for, and never more than 200: exactly those of the run, of the submission and
/// of the type that are asked for. A type that does not exist is refused.
pub proof fn law_actions_are_listed_as_asked_for(
    rows: Vec<ActionModel>,
    query: ActionQuery,
    r: Result<ListResponse<ActionDto>, InnerApiError>,
    shown: (int, int),
)
    requires
        is_page_shown(query.page, query.page_size, 50, 200, shown),
        call_ensures(list_actions, (rows, &query), r),
    ensures
        ({
            let action = match query.action {
                Some(name) => Some(name@),
                None => None,
            };
            &&& r is Err <==> action is Some && action != Some("auto_disabled"@) && action != Some(
                "auto_enabled"@,
            ) && action != Some("marked_banned"@)
            &&& r matches Err(error) ==> (error matches InnerApiError::BadRequest(told) && Some(
                told@,
            ) == Some("invalid action: "@ + action->0))
            &&& r matches Ok(list) ==> exists|
                found: Seq<ActionModel>,
                ordered: Seq<ActionModel>,
            | #[trigger]
                is_order_of_actions(found, ordered) && are_asked_for(
                    rows@,
                    found,
                    query.run_id,
                    query.submission_id,
                    action,
                ) && lists(
                    ordered,
                    list,
                    shown,
                    |m: ActionModel, dto: ActionDto| shows_action(m, dto),
                )
        }),
{
    lemma_names_differ();
    let action = match query.action {
        Some(name) => Some(name@),
        None => None,
    };
    if let Ok(list) = r {
        let filter = filter_asked(query);
        let found = admitted(rows@, filter);
        lemma_asked_for(rows@, filter, action);
        lemma_actions_in_order(found);
        lemma_page_of(
            newest_first(found),
            page_shown(query.page, query.page_size, ACTION_PAGE_SIZE, MAX_ACTION_PAGE_SIZE),
        );
        assert(lists(
            newest_first(found),
            list,
            shown,
            |m: ActionModel, dto: ActionDto| shows_action(m, dto),
        ));
    }
}

/// The actions of a run are exactly those recorded under its id, listed likewise.
pub proof fn law_actions_of_a_run_are_listed(
    rows: Vec<ActionModel>,
    run_id: i32,
    query: PageQuery,
    list: ListResponse<ActionDto>,
    shown: (int, int),
)
    requires
        is_page_shown(query.page, query.page_size, 50, 200, shown),
        call_ensures(list_run_actions, (rows, run_id, &query), list),
    ensures
        exists|found: Seq<ActionModel>, ordered: Seq<ActionModel>| #[trigger]
            is_order_of_actions(found, ordered) && are_asked_for(
                rows@,
                found,
                Some(run_id),
                None,
                None,
            ) && lists(
                ordered,
                list,
                shown,
                |m: ActionModel, dto: ActionDto| shows_action(m, dto),
            ),
{
    let filter = ActionFilter { run_id: Some(run_id), submission_id: None, action: None };
    let found = admitted(rows@, filter);
    lemma_asked_for(rows@, filter, None);
    lemma_actions_in_order(found);
    lemma_page_of(
        newest_first(found),
        page_shown(query.page, query.page_size, ACTION_PAGE_SIZE, MAX_ACTION_PAGE_SIZE),
    );
    assert(lists(
        newest_first(found),
        list,
        shown,
        |m: ActionModel, dto: ActionDto| shows_action(m, dto),
    ));
}

/// The status shows the settings as they are, how the task is doing, and the run that started last,
/// if there was one: no other run started later.
pub proof fn law_the_status_shows_the_last_run(
    option: UpperAutoManageOption,
    task_status: TaskStatus,
    runs: Vec<RunRow>,
    r: UpperAutoManageStatusResponse,
    interval: Trigger,
    downloads: Vec<DownloadRunRow>,
    other: DownloadTaskStatusResponse,
)
    requires
        call_ensures(get_status, (&option, task_status, runs), r),
        call_ensures(get_download_status, (&interval, task_status, downloads), other),
    ensures
        r.enabled == option.enabled,
        r.interval == option.interval,
        r.inactive_threshold_days == option.inactive_threshold_days,
        r.check_concurrency == option.check_concurrency,
        r.task_status == task_status,
        r.last_run is None <==> runs@.len() == 0,
        r.last_run matches Some(shown) ==> exists|i: int|
            0 <= i < runs@.len() && shows_run(#[trigger] runs@[i], shown) && forall|j: int|
                0 <= j < runs@.len() ==> moment_number((#[trigger] runs@[j]).started_at)
                    <= moment_number(runs@[i].started_at),
        other.interval == interval,
        other.task_status == task_status,
        other.last_run is None <==> downloads@.len() == 0,
        other.last_run matches Some(shown) ==> exists|i: int|
            0 <= i < downloads@.len() && shows_download(#[trigger] downloads@[i], shown)
                && forall|j: int|
                0 <= j < downloads@.len() ==> moment_number((#[trigger] downloads@[j]).started_at)
                    <= moment_number(downloads@[i].started_at),
{
    broadcast use vstd::seq_lib::group_to_multiset_ensures;

    if runs@.len() > 0 {
        lemma_runs_in_order(runs@);
        let ordered = newest_first(runs@);
        assert(ordered.contains(ordered[0]));
        assert(runs@.to_multiset().count(ordered[0]) > 0);
        let i = choose|i: int| 0 <= i < runs@.len() && runs@[i] == ordered[0];
        assert(shows_run(runs@[i], r.last_run->0));
        assert forall|j: int| 0 <= j < runs@.len() implies moment_number(
            (#[trigger] runs@[j]).started_at,
        ) <= moment_number(runs@[i].started_at) by {
            assert(runs@.contains(runs@[j]));
            assert(ordered.to_multiset().count(runs@[j]) > 0);
            let k = choose|k: int| 0 <= k < ordered.len() && ordered[k] == runs@[j];
            if k > 0 {
                assert(moment_number(ordered[0].started_at) >= moment_number(
                    ordered[k].started_at,
                ));
            }
        }
    }
    if downloads@.len() > 0 {
        lemma_downloads_in_order(downloads@);
        let ordered = newest_first(downloads@);
        assert(ordered.contains(ordered[0]));
        assert(downloads@.to_multiset().count(ordered[0]) > 0);
        let i = choose|i: int| 0 <= i < downloads@.len() && downloads@[i] == ordered[0];
        assert(shows_download(downloads@[i], other.last_run->0));
        assert forall|j: int| 0 <= j < downloads@.len() implies moment_number(
            (#[trigger] downloads@[j]).started_at,
        ) <= moment_number(downloads@[i].started_at) by {
            assert(downloads@.contains(downloads@[j]));
            assert(ordered.to_multiset().count(downloads@[j]) > 0);
            let k = choose|k: int| 0 <= k < ordered.len() && ordered[k] == downloads@[j];
            if k > 0 {
                assert(moment_number(ordered[0].started_at) >= moment_number(
                    ordered[k].started_at,
                ));
            }
        }
    }
}

/// The policies that are asked for are shown, each once and in its place, with the uploader that
/// it is about; a row without an uploader is not. A policy that does not exist is refused.
pub proof fn law_policies_are_listed_with_their_uppers(
    rows: Vec<(PolicyRow, Option<SubmissionRow>)>,
    query: PolicyQuery,
    r: Result<Vec<PolicyDto>, InnerApiError>,
)
    requires
        call_ensures(list_policies, (rows, &query), r),
    ensures
        ({
            let name = match query.policy {
                Some(name) => Some(name@),
                None => None,
            };
            &&& r is Err <==> name is Some && name != Some("normal"@) && name != Some("whitelist"@)
                && name != Some("blacklist"@) && name != Some("banned"@)
            &&& r matches Err(error) ==> (error matches InnerApiError::BadRequest(told) && told@
                == "invalid policy: "@ + name->0)
            &&& r matches Ok(shown) ==> drawn_from(
                rows@,
                shown@,
                |row: (PolicyRow, Option<SubmissionRow>)|
                    row.1 is Some && (name is None || name == Some("normal"@)
                        && row.0.policy is Normal || name == Some("whitelist"@)
                        && row.0.policy is Whitelist || name == Some("blacklist"@)
                        && row.0.policy is Blacklist || name == Some("banned"@)
                        && row.0.policy is Banned),
                |row: (PolicyRow, Option<SubmissionRow>), dto: PolicyDto|
                    dto.submission_id == row.0.submission_id && dto.policy == row.0.policy
                        && dto.source == row.0.source && dto.reason == row.0.reason
                        && dto.updated_at == row.0.updated_at && (row.1 matches Some(upper)
                        && dto.upper_id == upper.upper_id && dto.upper_name == upper.upper_name
                        && dto.enabled == upper.enabled),
            )
        }),
{
    lemma_names_differ();
    let name = match query.policy {
        Some(name) => Some(name@),
        None => None,
    };
    let wanted = match query.policy {
        Some(name) => policy_named(name@),
        None => None,
    };
    let pick = |row: (PolicyRow, Option<SubmissionRow>)| policy_answer(row, wanted);
    let takes = |row: (PolicyRow, Option<SubmissionRow>)|
        row.1 is Some && (name is None || name == Some("normal"@) && row.0.policy is Normal || name
            == Some("whitelist"@) && row.0.policy is Whitelist || name == Some("blacklist"@)
            && row.0.policy is Blacklist || name == Some("banned"@) && row.0.policy is Banned);
    let gives = |row: (PolicyRow, Option<SubmissionRow>), dto: PolicyDto|
        dto.submission_id == row.0.submission_id && dto.policy == row.0.policy && dto.source
            == row.0.source && dto.reason == row.0.reason && dto.updated_at == row.0.updated_at && (
        row.1 matches Some(upper) && dto.upper_id == upper.upper_id && dto.upper_name
            == upper.upper_name && dto.enabled == upper.enabled);
    if r is Ok {
        lemma_filter_map_is_drawn(rows@, pick, takes, gives);
        assert(r->Ok_0@ == rows@.filter_map(pick));
    }
}

/// Every uploader is listed once, with its policy and who wrote it where it has one; no name comes
/// before the one above it, character by character.
pub proof fn law_every_upper_is_listed_by_name(
    records: Vec<UpperRecord>,
    r: Vec<CandidateDto>,
)
    requires
        call_ensures(list_candidates, (&records,), r),
    ensures
        exists|shown: Seq<CandidateDto>| #[trigger]
            shown.to_multiset() == r@.to_multiset() && shown.len() == records@.len()
                && forall|i: int|
                0 <= i < shown.len() ==> {
                    let dto = #[trigger] shown[i];
                    let record = records@[i];
                    &&& dto.submission_id == record.submission.id
                    &&& dto.upper_id == record.submission.upper_id
                    &&& dto.upper_name == record.submission.upper_name
                    &&& dto.enabled == record.submission.enabled
                    &&& dto.policy is Some <==> record.policy is Some
                    &&& dto.source is Some <==> record.policy is Some
                    &&& record.policy matches Some(row) ==> dto.policy == Some(row.policy)
                        && dto.source == Some(row.source)
                },
        forall|i: int, j: int|
            0 <= i < j < r@.len() ==> !text_before(
                (#[trigger] r@[j]).upper_name@,
                (#[trigger] r@[i]).upper_name@,
            ),
{
    let shown = candidate_answers(records@);
    assert(shown.to_multiset() == r@.to_multiset());
    assert forall|i: int, j: int| 0 <= i < j < r@.len() implies !text_before(
        (#[trigger] r@[j]).upper_name@,
        (#[trigger] r@[i]).upper_name@,
    ) by {
        assert(!text_before(r@[j].title(), r@[i].title()));
    }
}

/// A policy that the user puts on an uploader is written as by hand, with the user's reason. An
/// uploader that does not exist and a policy that does not exist are refused, and change nothing.
/// What the user deletes goes as the policy that is there says; without one nothing happens. The
/// submission itself never changes.
pub proof fn law_users_write_and_delete_policies(
    submission_id: i32,
    request: UpsertPolicyRequest,
    now: Timestamp,
)
    ensures
        forall|record: &mut Option<UpperRecord>, r: Result<PolicyWrite, InnerApiError>| #[trigger]
            call_ensures(upsert_policy, (record, submission_id, request, now), r) ==> {
                let known = request.policy@ == "normal"@ || request.policy@ == "whitelist"@
                    || request.policy@ == "blacklist"@ || request.policy@ == "banned"@;
                &&& r is Ok <==> *record is Some && known
                &&& r is Err ==> *final(record) == *record
                &&& *record is None ==> r == Err::<PolicyWrite, InnerApiError>(
                    InnerApiError::NotFound(submission_id),
                )
                &&& *record is Some && !known ==> (r matches Err(error)
                    && error matches InnerApiError::BadRequest(told) && told@
                    == "invalid policy: "@ + request.policy@)
                &&& r matches Ok(write) ==> (*record matches Some(before)
                    && *final(record) matches Some(after) && after.submission == before.submission
                    && row_holds(
                    after.policy,
                    before.submission.id,
                    if request.policy@ == "normal"@ {
                        UpperManagePolicy::Normal
                    } else if request.policy@ == "whitelist"@ {
                        UpperManagePolicy::Whitelist
                    } else if request.policy@ == "blacklist"@ {
                        UpperManagePolicy::Blacklist
                    } else {
                        UpperManagePolicy::Banned
                    },
                    UpperManageSource::Manual,
                    match request.reason {
                        Some(text) => Some(text@),
                        None => None,
                    },
                    now,
                ) && (if before.policy is Some {
                    write is Update
                } else {
                    write is Insert
                }))
            },
        forall|record: &mut Option<UpperRecord>, r: Result<PolicyWrite, InnerApiError>| #[trigger]
            call_ensures(delete_policy, (record, submission_id, now), r) ==> {
                &&& *record is None ==> r == Err::<PolicyWrite, InnerApiError>(
                    InnerApiError::NotFound(submission_id),
                ) && *final(record) is None
                &&& *record matches Some(before) ==> r is Ok && (*final(record) matches Some(after)
                    && after.submission == before.submission && match before.policy {
                    None => after.policy is None && r->Ok_0 is Keep,
                    Some(row) => if row.policy is Whitelist || row.policy is Normal {
                        after.policy is None && r->Ok_0 is Delete
                    } else {
                        r->Ok_0 is Update && row_holds(
                            after.policy,
                            before.submission.id,
                            UpperManagePolicy::Normal,
                            UpperManageSource::Auto,
                            Some(
                                if row.policy is Blacklist {
                                    "用户删除黑名单，允许自动恢复"@
                                } else {
                                    "用户清除封禁观察，允许自动恢复"@
                                },
                            ),
                            now,
                        )
                    },
                })
            },
{
    lemma_names_differ();
}

} // verus!
