use bili_sync::inspection::{CheckOutcome, CheckOutcomeKind, SubmissionActivity};
use bili_sync::policy::PolicyWrite;
use bili_sync::round::{
    failure_notice, report_run, settle, ActionType, Inspection, RunRow, RunStats, RunStatus,
};
use bili_sync::task::{retention_cutoff, RUN_RETENTION_DAYS};
use bili_sync::time::{Timestamp, MIN_SECS, SECS_PER_DAY};

fn cand(id: i32, last_pubtime: Option<Timestamp>) -> SubmissionActivity {
    SubmissionActivity {
        submission_id: id,
        upper_id: 1000 + id as i64,
        upper_name: format!("up{}", id),
        last_pubtime,
    }
}

fn outcome(id: i32, kind: CheckOutcomeKind) -> CheckOutcome {
    CheckOutcome { kind, submission_id: id, upper_name: format!("up{}", id) }
}

#[test]
fn broken_off_rounds_keep_what_was_done() {
    let now = Timestamp { secs: 200 * SECS_PER_DAY, nanos: 0 };
    let old = Some(Timestamp { secs: 80 * SECS_PER_DAY, nanos: 0 });
    let mut round = Inspection::new();
    let mut overdue = round.begin_phase_one(&vec![cand(1, old)], now, 90);
    round.record_overdue(overdue.remove(0), PolicyWrite::Insert);
    round.begin_phase_two(12);
    round.record_outcome(
        outcome(5, CheckOutcomeKind::Recovered(Timestamp { secs: 0, nanos: 0 })),
        PolicyWrite::Update,
    );
    let (rows, result) = round.conclude(Some("risk control".to_string()), 31, now);
    assert_eq!(result.unwrap_err(), "risk control");
    assert_eq!(
        rows.iter().map(|row| (row.run_id, row.submission_id, row.action)).collect::<Vec<_>>(),
        vec![(31, 1, ActionType::AutoDisabled), (31, 5, ActionType::AutoEnabled)]
    );
}

#[test]
fn the_first_failure_is_the_result() {
    let stats = RunStats::default();
    let failed = |text: &str| Err::<(), String>(text.to_string());
    assert_eq!(settle(Ok(stats), Ok(())), Ok(stats));
    assert_eq!(settle(Ok(stats), failed("saving")), Err("saving".to_string()));
    assert_eq!(settle(Err("check".to_string()), failed("saving")), Err("check".to_string()));
    assert_eq!(settle(Err("check".to_string()), Ok(())), Err("check".to_string()));
}

#[test]
fn counts_add_up_over_a_whole_round() {
    let now = Timestamp { secs: 200 * SECS_PER_DAY, nanos: 0 };
    let old = |days: i64| Some(Timestamp { secs: now.secs - days * SECS_PER_DAY, nanos: 0 });
    let candidates = vec![cand(1, old(120)), cand(2, old(90)), cand(3, None), cand(4, old(95))];
    let mut round = Inspection::new();
    let mut overdue = round.begin_phase_one(&candidates, now, 90);
    assert_eq!(
        overdue
            .iter()
            .map(|u| (u.submission_id, u.upper_name.clone(), u.days))
            .collect::<Vec<_>>(),
        vec![(1, "up1".to_string(), 120), (4, "up4".to_string(), 95)]
    );
    assert_eq!(round.stats.checked, 4);
    round.record_overdue(overdue.remove(0), PolicyWrite::Insert);
    round.record_overdue(overdue.remove(0), PolicyWrite::Keep);
    round.begin_phase_two(5);
    let latest = Timestamp { secs: 0, nanos: 0 };
    round.record_outcome(outcome(5, CheckOutcomeKind::Recovered(latest)), PolicyWrite::Update);
    round.record_outcome(outcome(6, CheckOutcomeKind::StillInactive), PolicyWrite::Keep);
    round.record_outcome(
        outcome(7, CheckOutcomeKind::Gone("已注销".to_string())),
        PolicyWrite::Update,
    );
    round.record_outcome(
        outcome(8, CheckOutcomeKind::BannedObservation("已被冻结".to_string())),
        PolicyWrite::Update,
    );
    round.record_outcome(
        outcome(9, CheckOutcomeKind::Gone("已注销".to_string())),
        PolicyWrite::Keep,
    );
    let actions: Vec<(i32, String, ActionType, String)> = round
        .pending_actions
        .iter()
        .map(|a| (a.submission_id, a.upper_name.clone(), a.action, a.reason.clone()))
        .collect();
    assert_eq!(
        actions,
        vec![
            (
                1,
                "up1".to_string(),
                ActionType::AutoDisabled,
                "最近一次投稿为 120 天前".to_string()
            ),
            (
                5,
                "up5".to_string(),
                ActionType::AutoEnabled,
                "检测到新投稿 1970-01-01 00:00:00".to_string()
            ),
            (
                7,
                "up7".to_string(),
                ActionType::MarkedBanned,
                "UP 已删号/不可恢复：已注销".to_string()
            ),
            (
                8,
                "up8".to_string(),
                ActionType::MarkedBanned,
                "封禁观察：已被冻结".to_string()
            ),
        ]
    );
    let at = Timestamp { secs: 77, nanos: 5 };
    let (rows, result) = round.conclude(None, 31, at);
    assert_eq!(rows.len(), 4);
    assert_eq!(rows[2].run_id, 31);
    assert_eq!(rows[2].submission_id, 7);
    assert_eq!(rows[2].action, ActionType::MarkedBanned);
    assert_eq!(rows[2].reason.as_deref(), Some("UP 已删号/不可恢复：已注销"));
    assert_eq!(rows[2].created_at, at);
    let stats = result.unwrap();
    assert_eq!(
        stats,
        RunStats {
            checked: 9,
            disabled: 1,
            active: 2,
            indeterminate: 1,
            enabled: 1,
            still_inactive: 2,
            banned: 1,
            banned_observation: 1,
        }
    );
    assert_eq!(
        stats.checked,
        stats.disabled
            + stats.active
            + stats.indeterminate
            + stats.enabled
            + stats.banned
            + stats.banned_observation
            + stats.still_inactive
    );
    assert_eq!(
        stats.summary(),
        "巡检完成：检查 9 个 UP（启用态 4：禁用 1、正常 2、无法判定 1；禁用态复查 5：恢复启用 1、仍不活跃 2、转黑名单 1、封禁观察 1）"
    );
}

#[test]
fn successful_run_is_reported_with_its_summary() {
    let stats = RunStats { checked: 2, active: 2, ..RunStats::default() };
    let mut row = RunRow::started(5, Timestamp { secs: 10, nanos: 0 });
    assert_eq!(row.status, RunStatus::Running);
    assert_eq!(row.stats, RunStats::default());
    assert_eq!(row.finished_at, None);
    row.close(report_run(Ok(stats)), Timestamp { secs: 20, nanos: 0 });
    assert_eq!(row.id, 5);
    assert_eq!(row.started_at, Timestamp { secs: 10, nanos: 0 });
    assert_eq!(row.finished_at, Some(Timestamp { secs: 20, nanos: 0 }));
    assert_eq!(row.status, RunStatus::Succeeded);
    assert_eq!(row.stats, stats);
    assert_eq!(row.error_message, None);
    assert_eq!(row.summary, Some(stats.summary()));
}

#[test]
fn failed_run_is_reported_without_counts() {
    let report = report_run(Err("risk control".to_string()));
    assert_eq!(report.status, RunStatus::Failed);
    assert_eq!(report.stats, RunStats::default());
    assert_eq!(report.error_message.as_deref(), Some("risk control"));
    assert_eq!(report.summary, None);
    assert_eq!(
        failure_notice("risk control"),
        "本轮 UP 主自动巡检任务执行遇到错误：risk control"
    );
}

#[test]
fn runs_are_kept_for_thirty_days() {
    assert_eq!(RUN_RETENTION_DAYS, 30);
    let now = Timestamp { secs: 1_780_000_000, nanos: 9 };
    let cutoff = retention_cutoff(now).unwrap();
    assert_eq!(cutoff, Timestamp { secs: now.secs - 30 * SECS_PER_DAY, nanos: 9 });
    assert!(!cutoff.is_after(&cutoff));
    assert!(cutoff.is_after(&Timestamp { secs: cutoff.secs, nanos: 8 }));
    assert_eq!(retention_cutoff(Timestamp { secs: MIN_SECS + 5, nanos: 0 }), None);
}
