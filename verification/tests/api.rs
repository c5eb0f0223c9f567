use bili_sync::alphabet::str_before;
use bili_sync::api::{
    action_to_name, delete_policy, get_download_status, get_status, list_actions,
    list_candidates, list_download_runs, list_policies, list_run_actions, list_runs,
    parse_action, parse_policy, policy_to_name, upsert_policy, ActionDto, ActionModel,
    ActionQuery, DownloadRunRow, InnerApiError, PolicyQuery, RunDto, UpsertPolicyRequest,
};
use bili_sync::config::{Trigger, UpperAutoManageOption};
use bili_sync::paging::{action_page, run_page, take_page, PageQuery, PageRequest};
use bili_sync::policy::{
    upsert_policy_txn, PolicyRow, PolicyWrite, SubmissionRow, UpperManagePolicy,
    UpperManageSource, UpperRecord,
};
use bili_sync::recency::{pick_newest, put_newest_first};
use bili_sync::round::{ActionType, RunRow, RunStats, RunStatus};
use bili_sync::task::{TaskStatus, TaskTrigger};
use bili_sync::time::Timestamp;

const NOW: Timestamp = Timestamp { secs: 1_780_000_000, nanos: 0 };

fn submission(id: i32, enabled: bool) -> SubmissionRow {
    SubmissionRow {
        id,
        upper_id: 500 + id as i64,
        upper_name: format!("up{}", id),
        path: "/p".to_string(),
        enabled,
        rule: None,
        filter_option: None,
        use_dynamic_api: false,
    }
}

fn policy_row(id: i32, policy: UpperManagePolicy) -> PolicyRow {
    PolicyRow {
        submission_id: id,
        policy,
        source: UpperManageSource::Auto,
        reason: Some("r".to_string()),
        updated_at: NOW,
    }
}

fn record(id: i32, enabled: bool, policy: Option<UpperManagePolicy>) -> UpperRecord {
    UpperRecord {
        submission: submission(id, enabled),
        policy: policy.map(|policy| policy_row(id, policy)),
    }
}

fn bad_request(error: InnerApiError) -> String {
    assert_eq!(error.status_code(), 400);
    match error {
        InnerApiError::BadRequest(text) => text,
        other => panic!("{:?}", other),
    }
}

#[test]
fn policies_are_read_back_from_their_names() {
    for policy in [
        UpperManagePolicy::Normal,
        UpperManagePolicy::Whitelist,
        UpperManagePolicy::Blacklist,
        UpperManagePolicy::Banned,
    ] {
        assert_eq!(parse_policy(policy_to_name(policy)).unwrap(), policy);
    }
    assert_eq!(policy_to_name(UpperManagePolicy::Banned), "banned");
    assert_eq!(bad_request(parse_policy("Normal").unwrap_err()), "invalid policy: Normal");
    assert_eq!(bad_request(parse_policy("").unwrap_err()), "invalid policy: ");
}

#[test]
fn actions_are_read_back_from_their_names() {
    for action in [
        ActionType::AutoDisabled,
        ActionType::AutoEnabled,
        ActionType::MarkedBanned,
    ] {
        assert_eq!(parse_action(action_to_name(action)).unwrap(), action);
    }
    assert_eq!(action_to_name(ActionType::AutoDisabled), "auto_disabled");
    assert_eq!(bad_request(parse_action("x").unwrap_err()), "invalid action: x");
}

#[test]
fn policy_protected_error_maps_to_409_conflict() {
    assert_eq!(InnerApiError::PolicyProtected("x".to_string()).status_code(), 409);
    assert_eq!(InnerApiError::NotFound(3).status_code(), 404);
}

#[test]
fn pages_have_bounds() {
    let query = |page, page_size| PageQuery { page, page_size };
    let shown = run_page(&query(None, None));
    assert_eq!((shown.page, shown.page_size), (0, 20));
    let shown = run_page(&query(Some(3), Some(1000)));
    assert_eq!((shown.page, shown.page_size), (3, 100));
    let shown = run_page(&query(None, Some(0)));
    assert_eq!((shown.page, shown.page_size), (0, 1));
    let shown = run_page(&query(None, Some(100)));
    assert_eq!(shown.page_size, 100);
    let shown = action_page(&query(None, None));
    assert_eq!((shown.page, shown.page_size), (0, 50));
    let shown = action_page(&query(Some(1), Some(201)));
    assert_eq!((shown.page, shown.page_size), (1, 200));
}

fn action(id: i32, run_id: i32, submission_id: i32, action: ActionType) -> ActionModel {
    ActionModel {
        id,
        run_id,
        submission_id,
        upper_name: "u".to_string(),
        action,
        reason: None,
        created_at: NOW,
    }
}

#[test]
fn pages_show_the_whole_list() {
    let items: Vec<i32> = (0..7).collect();
    let page = |page: u64, page_size: u64| {
        take_page((0..7).collect::<Vec<i32>>(), PageRequest { page, page_size })
    };
    assert_eq!(page(0, 3), vec![0, 1, 2]);
    assert_eq!(page(1, 3), vec![3, 4, 5]);
    assert_eq!(page(2, 3), vec![6]);
    assert!(page(3, 3).is_empty());
    assert_eq!(page(0, 7), items);
    assert_eq!(page(0, 100), items);
    assert!(page(u64::MAX, u64::MAX).is_empty());
    assert_eq!([page(0, 2), page(1, 2), page(2, 2), page(3, 2)].concat(), items);
}

#[test]
fn action_filter_combines_what_is_given() {
    let rows = || {
        vec![
            action(1, 4, 9, ActionType::AutoEnabled),
            action(2, 5, 9, ActionType::AutoEnabled),
            action(3, 4, 9, ActionType::MarkedBanned),
            action(4, 4, 8, ActionType::AutoEnabled),
        ]
    };
    let query = |run_id, submission_id, name: Option<&str>, page_size| ActionQuery {
        run_id,
        submission_id,
        action: name.map(str::to_string),
        page: None,
        page_size,
    };
    let shown = |query: ActionQuery| {
        let list = list_actions(rows(), &query).unwrap();
        (list.total_count, list.items.iter().map(|a| a.id).collect::<Vec<_>>())
    };
    assert_eq!(shown(query(None, None, None, None)), (4, vec![1, 2, 3, 4]));
    assert_eq!(shown(query(Some(4), None, Some("auto_enabled"), None)), (2, vec![1, 4]));
    assert_eq!(shown(query(Some(4), None, Some("auto_enabled"), Some(1))), (2, vec![1]));
    assert_eq!(shown(query(None, Some(9), None, None)), (3, vec![1, 2, 3]));
    let error = list_actions(rows(), &query(None, None, Some("enabled"), None)).unwrap_err();
    assert_eq!(bad_request(error), "invalid action: enabled");
    let list =
        list_run_actions(rows(), 4, &PageQuery { page: Some(1), page_size: Some(2) });
    assert_eq!(list.total_count, 3);
    assert_eq!(list.items.iter().map(|a| a.id).collect::<Vec<_>>(), vec![4]);
}

fn run(id: i32) -> RunRow {
    RunRow {
        id,
        started_at: NOW,
        finished_at: Some(NOW),
        status: RunStatus::Succeeded,
        stats: RunStats {
            checked: 28,
            disabled: 1,
            active: 2,
            indeterminate: 3,
            enabled: 4,
            still_inactive: 5,
            banned: 6,
            banned_observation: 7,
        },
        error_message: None,
        summary: Some("s".to_string()),
    }
}

#[test]
fn runs_are_answered_with_every_count() {
    let dto = RunDto::from(run(3));
    assert_eq!(dto.id, 3);
    assert_eq!(dto.checked_count, 28);
    assert_eq!(dto.disabled_count, 1);
    assert_eq!(dto.active_count, 2);
    assert_eq!(dto.indeterminate_count, 3);
    assert_eq!(dto.enabled_count, 4);
    assert_eq!(dto.still_inactive_count, 5);
    assert_eq!(dto.banned_count, 6);
    assert_eq!(dto.banned_observation_count, 7);
    assert_eq!(dto.summary.as_deref(), Some("s"));
    let rows = (0..25).map(run).collect();
    let list = list_runs(rows, &PageQuery { page: Some(1), page_size: None });
    assert_eq!(list.total_count, 25);
    assert_eq!(list.items.iter().map(|r| r.id).collect::<Vec<_>>(), vec![20, 21, 22, 23, 24]);
}

fn run_at(id: i32, nanos: u32) -> RunRow {
    RunRow { started_at: Timestamp { secs: NOW.secs, nanos }, ..run(id) }
}

#[test]
fn runs_are_listed_newest_first() {
    let rows = vec![run_at(1, 3), run_at(2, 8), run_at(3, 3), run_at(4, 9), run_at(5, 1)];
    let list = list_runs(rows, &PageQuery { page: None, page_size: None });
    assert_eq!(list.items.iter().map(|r| r.id).collect::<Vec<_>>(), vec![4, 2, 1, 3, 5]);
}

#[test]
fn actions_are_listed_newest_first() {
    let at = |id: i32, secs: i64| ActionModel {
        created_at: Timestamp { secs, nanos: 0 },
        ..action(id, 4, 9, ActionType::AutoDisabled)
    };
    let rows = || vec![at(1, 100), at(2, 300), at(3, -5), at(4, 200)];
    let query = PageQuery { page: Some(0), page_size: Some(3) };
    let list = list_run_actions(rows(), 4, &query);
    assert_eq!(list.total_count, 4);
    assert_eq!(list.items.iter().map(|a| a.id).collect::<Vec<_>>(), vec![2, 4, 1]);
    let query = ActionQuery {
        run_id: None,
        submission_id: Some(9),
        action: None,
        page: Some(1),
        page_size: Some(2),
    };
    let list = list_actions(rows(), &query).unwrap();
    assert_eq!(list.items.iter().map(|a| a.id).collect::<Vec<_>>(), vec![1, 3]);
}

#[test]
fn the_newest_row_is_picked() {
    assert_eq!(pick_newest(vec![run_at(1, 2), run_at(2, 6), run_at(3, 6)]).unwrap().id, 2);
    assert!(pick_newest(Vec::<RunRow>::new()).is_none());
    let ordered = put_newest_first(vec![run_at(1, 2), run_at(2, 6), run_at(3, 4)]);
    assert_eq!(ordered.iter().map(|r| r.id).collect::<Vec<_>>(), vec![2, 3, 1]);
}

#[test]
fn actions_are_answered_as_they_are() {
    let dto = ActionDto::from(action(1, 2, 3, ActionType::MarkedBanned));
    assert_eq!((dto.id, dto.run_id, dto.submission_id), (1, 2, 3));
    assert_eq!(dto.action, ActionType::MarkedBanned);
}

#[test]
fn status_shows_the_last_run() {
    let option = UpperAutoManageOption {
        enabled: true,
        interval: Trigger::Cron("0 0 * * * *".to_string()),
        inactive_threshold_days: 60,
        check_concurrency: 5,
    };
    let status = TaskStatus {
        is_running: true,
        last_run: Some(NOW),
        last_finish: None,
        next_run: None,
    };
    let answer = get_status(&option, status, vec![run_at(11, 5), run_at(12, 9), run_at(13, 7)]);
    assert!(answer.enabled);
    assert!(matches!(answer.interval, Trigger::Cron(text) if text == "0 0 * * * *"));
    assert_eq!(answer.inactive_threshold_days, 60);
    assert_eq!(answer.check_concurrency, 5);
    assert_eq!(answer.task_status, status);
    assert_eq!(answer.last_run.unwrap().id, 12);
    assert!(get_status(&option, status, Vec::new()).last_run.is_none());
}

#[test]
fn download_status_shows_the_last_run() {
    let row = |id: i32| DownloadRunRow {
        id,
        started_at: Timestamp { secs: 1_780_000_000 + id as i64, nanos: 0 },
        finished_at: None,
        status: RunStatus::Running,
        trigger: TaskTrigger::Manual,
        error_message: None,
    };
    let answer =
        get_download_status(&Trigger::Interval(60), TaskStatus::default(), vec![row(3), row(4)]);
    assert!(matches!(answer.interval, Trigger::Interval(60)));
    let last = answer.last_run.unwrap();
    assert_eq!(last.id, 4);
    assert_eq!(last.trigger, TaskTrigger::Manual);
    assert_eq!(last.status, RunStatus::Running);
    let list =
        list_download_runs(vec![row(1), row(2)], &PageQuery { page: None, page_size: Some(1) });
    assert_eq!(list.total_count, 2);
    assert_eq!(list.items.iter().map(|r| r.id).collect::<Vec<_>>(), vec![2]);
}

#[test]
fn policies_without_an_uploader_are_not_listed() {
    let rows = || {
        vec![
            (policy_row(1, UpperManagePolicy::Whitelist), Some(submission(1, true))),
            (policy_row(2, UpperManagePolicy::Banned), None),
            (policy_row(3, UpperManagePolicy::Banned), Some(submission(3, false))),
        ]
    };
    let all = list_policies(rows(), &PolicyQuery { policy: None }).unwrap();
    assert_eq!(all.iter().map(|p| p.submission_id).collect::<Vec<_>>(), vec![1, 3]);
    assert_eq!(all[0].upper_id, 501);
    assert_eq!(all[0].upper_name, "up1");
    assert!(all[0].enabled);
    let banned =
        list_policies(rows(), &PolicyQuery { policy: Some("banned".to_string()) }).unwrap();
    assert_eq!(banned.iter().map(|p| p.submission_id).collect::<Vec<_>>(), vec![3]);
    let error =
        list_policies(rows(), &PolicyQuery { policy: Some("black".to_string()) }).unwrap_err();
    assert_eq!(bad_request(error), "invalid policy: black");
}

#[test]
fn candidates_include_everybody() {
    let records = vec![
        record(1, true, None),
        record(2, false, Some(UpperManagePolicy::Blacklist)),
    ];
    let list = list_candidates(&records);
    assert_eq!(list.len(), 2);
    assert_eq!(list[0].policy, None);
    assert_eq!(list[0].source, None);
    assert_eq!(list[1].submission_id, 2);
    assert_eq!(list[1].policy, Some(UpperManagePolicy::Blacklist));
    assert_eq!(list[1].source, Some(UpperManageSource::Auto));
    assert!(!list[1].enabled);
}

#[test]
fn candidates_are_listed_by_name() {
    let named = |id: i32, name: &str| {
        let mut record = record(id, true, None);
        record.submission.upper_name = name.to_string();
        record
    };
    let records = vec![
        named(1, "b"),
        named(2, "ab"),
        named(3, ""),
        named(4, "影视"),
        named(5, "a"),
        named(6, "b"),
        named(7, "Z"),
    ];
    let list = list_candidates(&records);
    assert_eq!(
        list.iter().map(|c| c.submission_id).collect::<Vec<_>>(),
        vec![3, 7, 5, 2, 1, 6, 4]
    );
    assert!(str_before("a", "ab") && !str_before("ab", "a") && !str_before("a", "a"));
}

fn request(policy: &str) -> UpsertPolicyRequest {
    UpsertPolicyRequest { policy: policy.to_string(), reason: Some("why".to_string()) }
}

#[test]
fn upsert_policy_by_hand_is_manual() {
    let mut stored = Some(record(1, true, None));
    assert_eq!(
        upsert_policy(&mut stored, 1, request("whitelist"), NOW).unwrap(),
        PolicyWrite::Insert
    );
    let row = stored.as_ref().unwrap().policy.as_ref().unwrap();
    assert_eq!(row.policy, UpperManagePolicy::Whitelist);
    assert_eq!(row.source, UpperManageSource::Manual);
    assert_eq!(row.reason.as_deref(), Some("why"));
    assert_eq!(
        upsert_policy(&mut stored, 1, request("normal"), NOW).unwrap(),
        PolicyWrite::Update
    );
    let row = stored.as_ref().unwrap().policy.as_ref().unwrap();
    assert_eq!(row.policy, UpperManagePolicy::Normal);
    assert_eq!(row.source, UpperManageSource::Manual);
}

#[test]
fn upsert_policy_refuses_missing_submission_before_bad_policy() {
    let mut stored = None;
    assert!(matches!(
        upsert_policy(&mut stored, 6, request("nonsense"), NOW),
        Err(InnerApiError::NotFound(6))
    ));
    let mut stored = Some(record(6, true, Some(UpperManagePolicy::Banned)));
    let error = upsert_policy(&mut stored, 6, request("nonsense"), NOW).unwrap_err();
    assert_eq!(bad_request(error), "invalid policy: nonsense");
    assert_eq!(stored.unwrap().policy.unwrap().policy, UpperManagePolicy::Banned);
}

#[test]
fn delete_policy_reset_under_lock() {
    let mut stored = None;
    assert!(matches!(
        delete_policy(&mut stored, 2, NOW),
        Err(InnerApiError::NotFound(2))
    ));
    let mut stored = Some(record(2, false, None));
    assert_eq!(delete_policy(&mut stored, 2, NOW).unwrap(), PolicyWrite::Keep);
    assert!(stored.unwrap().policy.is_none());
    let mut stored = Some(record(2, false, Some(UpperManagePolicy::Banned)));
    assert_eq!(delete_policy(&mut stored, 2, NOW).unwrap(), PolicyWrite::Update);
    let record_after = stored.unwrap();
    assert!(record_after.is_recheck_candidate());
    assert!(!record_after.submission.enabled);
    let mut stored = Some(record(2, true, Some(UpperManagePolicy::Whitelist)));
    assert_eq!(delete_policy(&mut stored, 2, NOW).unwrap(), PolicyWrite::Delete);
    assert!(stored.unwrap().policy.is_none());
}

#[test]
fn last_policy_wins() {
    let mut one = record(1, true, None);
    upsert_policy_txn(
        &mut one,
        UpperManagePolicy::Blacklist,
        UpperManageSource::Auto,
        None,
        NOW,
    );
    upsert_policy_txn(
        &mut one,
        UpperManagePolicy::Whitelist,
        UpperManageSource::Manual,
        None,
        NOW,
    );
    let row = one.policy.unwrap();
    assert_eq!(row.policy, UpperManagePolicy::Whitelist);
    assert_eq!(row.source, UpperManageSource::Manual);
    assert_eq!(row.reason, None);
}
