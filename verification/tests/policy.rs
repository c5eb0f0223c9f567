use bili_sync::config::{Trigger, UpperAutoManageOption};
use bili_sync::inspection::{
    apply_outcome, disable_inactive, fetch_disabled_for_recheck, fetch_inactive_candidates,
    judge_activity, ActivityVerdict, CheckOutcomeKind, PublishedVideo, SubmissionActivity,
};
use bili_sync::policy::{
    disable_submission_with_policy, enable_submission_with_policy, is_submission_enabled,
    reset_policy_after_delete, reset_policy_to_default, upsert_policy, PolicyRow, PolicyWrite,
    SubmissionRow, UpperManagePolicy as Policy, UpperManageSource as Source, UpperRecord,
};
use bili_sync::round::Inspection;
use bili_sync::time::{Timestamp, SECS_PER_DAY};

const NOW: Timestamp = Timestamp { secs: 1_780_000_000, nanos: 250_000_000 };
const LATER: Timestamp = Timestamp { secs: 1_780_000_060, nanos: 0 };

fn insert_submission(id: i32, upper_id: i64, name: &str, enabled: bool) -> UpperRecord {
    UpperRecord {
        submission: SubmissionRow {
            id,
            upper_id,
            upper_name: name.to_string(),
            path: format!("/tmp/{}", name),
            enabled,
            rule: None,
            filter_option: None,
            use_dynamic_api: false,
        },
        policy: None,
    }
}

fn insert_video(submission_id: i32, pubtime: Timestamp) -> PublishedVideo {
    PublishedVideo { submission_id: Some(submission_id), pubtime }
}

fn load_policy(record: &UpperRecord) -> Option<&PolicyRow> {
    record.policy.as_ref()
}

fn enabled(record: &UpperRecord) -> bool {
    is_submission_enabled(Some(record), record.submission.id).unwrap()
}

#[test]
fn disable_submission_writes_policy_atomically() {
    let mut record = insert_submission(1, 100, "alice", true);
    let write = disable_submission_with_policy(
        &mut record,
        Policy::Normal,
        Source::Auto,
        Some("test".to_string()),
        NOW,
    );
    assert_eq!(write, PolicyWrite::Insert);
    assert!(!enabled(&record), "submission 应被禁用");
    let p = load_policy(&record).expect("policy 行必须存在");
    assert_eq!(p.policy, Policy::Normal);
    assert_eq!(p.source, Source::Auto);
    assert_eq!(p.submission_id, 1);
    assert_eq!(p.reason.as_deref(), Some("test"));
    assert_eq!(p.updated_at, NOW);
}

#[test]
fn enable_submission_writes_policy_atomically() {
    let mut record = insert_submission(2, 101, "bob", false);
    enable_submission_with_policy(
        &mut record,
        Policy::Normal,
        Source::Auto,
        Some("test".to_string()),
        NOW,
    );
    assert!(enabled(&record), "submission 应被启用");
    let p = load_policy(&record).expect("policy 行必须存在");
    assert_eq!(p.policy, Policy::Normal);
    assert_eq!(p.source, Source::Auto);
}

#[test]
fn reset_policy_after_delete_rewrites_blacklist_to_normal_auto() {
    let mut record = insert_submission(3, 102, "carol", false);
    upsert_policy(
        &mut record,
        Policy::Blacklist,
        Source::Auto,
        Some("auto banned".to_string()),
        NOW,
    );
    let write = reset_policy_after_delete(&mut record, Policy::Blacklist, LATER);
    assert_eq!(write, PolicyWrite::Update);
    let p = load_policy(&record).expect("policy 行必须存在");
    assert_eq!(p.policy, Policy::Normal);
    assert_eq!(p.source, Source::Auto, "恢复巡检要求 source=auto");
    assert_eq!(p.reason.as_deref(), Some("用户删除黑名单，允许自动恢复"));
    assert_eq!(p.updated_at, LATER);
    assert!(!enabled(&record));
    assert!(record.is_recheck_candidate());
}

#[test]
fn reset_policy_after_delete_rewrites_banned_to_normal_auto() {
    let mut record = insert_submission(4, 10201, "banned_up", false);
    upsert_policy(
        &mut record,
        Policy::Banned,
        Source::Auto,
        Some("封禁观察".to_string()),
        NOW,
    );
    reset_policy_after_delete(&mut record, Policy::Banned, LATER);
    let p = load_policy(&record).expect("policy 行必须存在");
    assert_eq!(p.policy, Policy::Normal);
    assert_eq!(p.source, Source::Auto, "清除封禁观察后应为 normal+auto 以允许自动恢复");
    assert_eq!(p.reason.as_deref(), Some("用户清除封禁观察，允许自动恢复"));
    assert!(!enabled(&record), "enabled 状态应被保留");
}

#[test]
fn reset_policy_after_delete_removes_whitelist_row() {
    let mut record = insert_submission(5, 1021, "white", true);
    upsert_policy(&mut record, Policy::Whitelist, Source::Manual, None, NOW);
    assert!(!record.is_inactive_candidate());
    let write = reset_policy_after_delete(&mut record, Policy::Whitelist, LATER);
    assert_eq!(write, PolicyWrite::Delete);
    assert!(load_policy(&record).is_none(), "删除白名单应直接抹掉行，不留 marker");
    assert!(record.is_inactive_candidate());
}

#[test]
fn reset_policy_after_delete_removes_normal_row() {
    let mut record = insert_submission(6, 1022, "plain", true);
    upsert_policy(&mut record, Policy::Normal, Source::Manual, None, NOW);
    reset_policy_after_delete(&mut record, Policy::Normal, LATER);
    assert!(load_policy(&record).is_none());
}

#[test]
fn reset_policy_to_default_legacy_writes_normal_manual() {
    let mut record = insert_submission(7, 1023, "legacy", true);
    reset_policy_to_default(&mut record, NOW);
    let p = load_policy(&record).expect("policy 应被创建");
    assert_eq!(p.policy, Policy::Normal);
    assert_eq!(p.source, Source::Manual);
    assert_eq!(p.reason.as_deref(), Some("用户删除策略，恢复默认管理"));
}

#[test]
fn upsert_policy_txn_inserts_then_updates() {
    let mut record = insert_submission(8, 104, "eve", true);
    let first = upsert_policy(
        &mut record,
        Policy::Whitelist,
        Source::Manual,
        Some("r1".to_string()),
        NOW,
    );
    assert_eq!(first, PolicyWrite::Insert);
    let p = load_policy(&record).unwrap();
    assert_eq!(p.policy, Policy::Whitelist);
    assert_eq!(p.source, Source::Manual);
    assert_eq!(p.reason.as_deref(), Some("r1"));
    let second = upsert_policy(
        &mut record,
        Policy::Blacklist,
        Source::Auto,
        Some("r2".to_string()),
        LATER,
    );
    assert_eq!(second, PolicyWrite::Update);
    let p = load_policy(&record).unwrap();
    assert_eq!(p.policy, Policy::Blacklist);
    assert_eq!(p.source, Source::Auto);
    assert_eq!(p.reason.as_deref(), Some("r2"));
}

#[test]
fn missing_submission_is_an_error() {
    assert_eq!(is_submission_enabled(None, -42), Err("submission -42 不存在".to_string()));
}

fn ids(candidates: &[SubmissionActivity]) -> Vec<i32> {
    candidates.iter().map(|c| c.submission_id).collect()
}

#[test]
fn fetch_disabled_for_recheck_includes_auto_source_normal_policy() {
    let mut record = insert_submission(9, 105, "frank", false);
    upsert_policy(&mut record, Policy::Normal, Source::Auto, None, NOW);
    let candidates = fetch_disabled_for_recheck(&vec![record], &vec![]);
    assert!(
        candidates.iter().any(|c| c.submission_id == 9),
        "auto 来源的 normal policy 必须被恢复巡检命中"
    );
}

#[test]
fn fetch_disabled_for_recheck_excludes_manual_source_normal_policy() {
    let mut record = insert_submission(10, 1051, "manual", false);
    upsert_policy(
        &mut record,
        Policy::Normal,
        Source::Manual,
        Some("用户手动".to_string()),
        NOW,
    );
    let candidates = fetch_disabled_for_recheck(&vec![record], &vec![]);
    assert!(
        !candidates.iter().any(|c| c.submission_id == 10),
        "manual 来源的 normal policy 不应进入恢复巡检"
    );
}

#[test]
fn fetch_disabled_for_recheck_excludes_whitelist_blacklist() {
    let mut white = insert_submission(11, 106, "white", false);
    let mut black = insert_submission(12, 107, "black", false);
    let mut banned = insert_submission(13, 1088, "banned", false);
    upsert_policy(&mut white, Policy::Whitelist, Source::Manual, None, NOW);
    upsert_policy(&mut black, Policy::Blacklist, Source::Manual, None, NOW);
    upsert_policy(&mut banned, Policy::Banned, Source::Auto, None, NOW);
    let without_row = insert_submission(14, 1090, "no_policy", false);
    let candidates =
        fetch_disabled_for_recheck(&vec![white, black, banned, without_row], &vec![]);
    let ids = ids(&candidates);
    assert!(!ids.contains(&11), "whitelist 不应进入恢复巡检");
    assert!(!ids.contains(&12), "blacklist 不应进入恢复巡检");
    assert!(!ids.contains(&13), "banned(封禁观察) 不应进入恢复巡检");
    assert!(ids.is_empty());
}

#[test]
fn fetch_inactive_candidates_excludes_banned_policy() {
    let mut banned = insert_submission(15, 1089, "banned_active", true);
    upsert_policy(&mut banned, Policy::Banned, Source::Auto, None, NOW);
    let candidates = fetch_inactive_candidates(&vec![banned], &vec![]);
    assert!(
        !ids(&candidates).contains(&15),
        "banned(封禁观察) 不应进入阶段一候选，否则会被覆盖回 normal"
    );
}

#[test]
fn fetch_inactive_candidates_skips_disabled_and_whitelisted() {
    let ok = insert_submission(16, 108, "ok", true);
    let disabled = insert_submission(17, 109, "disabled", false);
    let mut wl = insert_submission(18, 110, "wl", true);
    upsert_policy(&mut wl, Policy::Whitelist, Source::Manual, None, NOW);
    let candidates = fetch_inactive_candidates(&vec![ok, disabled, wl], &vec![]);
    let ids = ids(&candidates);
    assert!(ids.contains(&16));
    assert!(!ids.contains(&17), "已禁用的不应在 phase1 候选中");
    assert!(!ids.contains(&18), "白名单不应在 phase1 候选中");
    assert_eq!(candidates[0].last_pubtime, None);
    assert_eq!(candidates[0].upper_id, 108);
    assert_eq!(candidates[0].upper_name, "ok");
}

#[test]
fn candidates_know_the_latest_publication() {
    let first = insert_submission(1, 10, "a", true);
    let second = insert_submission(2, 20, "b", true);
    let t = |secs: i64, nanos: u32| Timestamp { secs, nanos };
    let videos = vec![
        insert_video(1, t(100, 0)),
        insert_video(2, t(900, 0)),
        insert_video(1, t(300, 7)),
        insert_video(1, t(300, 2)),
        PublishedVideo { submission_id: None, pubtime: t(5000, 0) },
    ];
    let candidates = fetch_inactive_candidates(&vec![first, second], &videos);
    assert_eq!(candidates[0].last_pubtime, Some(t(300, 7)));
    assert_eq!(candidates[1].last_pubtime, Some(t(900, 0)));
}

#[test]
fn phase1_auto_disables_long_inactive_submission() {
    let mut records = vec![insert_submission(19, 111, "old", true)];
    let old = Timestamp { secs: NOW.secs - 200 * SECS_PER_DAY, nanos: NOW.nanos };
    let videos = vec![insert_video(19, old)];
    let opt = UpperAutoManageOption {
        enabled: true,
        interval: Trigger::Interval(3600),
        inactive_threshold_days: 90,
        check_concurrency: 2,
    };
    let inactive = fetch_inactive_candidates(&records, &videos);
    let mut inspection = Inspection::new();
    for upper in inspection.begin_phase_one(&inactive, NOW, opt.inactive_threshold_days) {
        assert_eq!(upper.submission_id, 19);
        assert_eq!(upper.days, 200);
        let write = disable_inactive(&mut records[0], upper.days, NOW);
        inspection.record_overdue(upper, write);
    }
    assert_eq!(inspection.stats.checked, 1);
    assert_eq!(inspection.stats.disabled, 1);
    assert!(!enabled(&records[0]), "应被自动禁用");
    let p = load_policy(&records[0]).unwrap();
    assert_eq!(p.policy, Policy::Normal);
    assert_eq!(p.source, Source::Auto);
    assert_eq!(p.reason.as_deref(), Some("200 天未更新"));
    assert_eq!(inspection.pending_actions[0].reason, "最近一次投稿为 200 天前");
}

#[test]
fn phase2_outcomes_apply_correct_state_changes() {
    let mut recover = insert_submission(20, 200, "recover", false);
    upsert_policy(&mut recover, Policy::Normal, Source::Auto, None, NOW);
    enable_submission_with_policy(
        &mut recover,
        Policy::Normal,
        Source::Auto,
        Some("检测到新投稿".to_string()),
        LATER,
    );
    assert!(enabled(&recover));
    let mut ban = insert_submission(21, 201, "ban", true);
    upsert_policy(&mut ban, Policy::Whitelist, Source::Manual, None, NOW);
    upsert_policy(
        &mut ban,
        Policy::Blacklist,
        Source::Auto,
        Some("UP 不可用".to_string()),
        LATER,
    );
    let p = load_policy(&ban).unwrap();
    assert_eq!(p.policy, Policy::Blacklist);
    assert_eq!(p.source, Source::Auto);
    assert!(enabled(&ban), "黑名单写入不应改变 enabled");
    let mut still = insert_submission(22, 202, "still", false);
    upsert_policy(&mut still, Policy::Normal, Source::Auto, None, NOW);
    let write = apply_outcome(&mut still, &CheckOutcomeKind::StillInactive, LATER);
    assert_eq!(write, PolicyWrite::Keep);
    let p = load_policy(&still).unwrap();
    assert_eq!(p.policy, Policy::Normal);
    assert_eq!(p.source, Source::Auto);
    assert_eq!(p.updated_at, NOW, "still_inactive 不应触碰 policy");
}

#[test]
fn phase2_recovered_outcome_enables() {
    let mut record = insert_submission(23, 203, "back", false);
    upsert_policy(&mut record, Policy::Normal, Source::Auto, None, NOW);
    let latest = Timestamp { secs: 1_700_000_000, nanos: 0 };
    let write = apply_outcome(&mut record, &CheckOutcomeKind::Recovered(latest), LATER);
    assert_eq!(write, PolicyWrite::Update);
    assert!(enabled(&record));
    let p = load_policy(&record).unwrap();
    assert_eq!(p.policy, Policy::Normal);
    assert_eq!(p.source, Source::Auto);
    assert_eq!(p.reason.as_deref(), Some("检测到新投稿，时间 2023-11-14 22:13:20"));
    assert!(record.is_inactive_candidate());
}

#[test]
fn phase2_gone_outcome_writes_blacklist() {
    let mut record = insert_submission(24, 300, "gone_up", false);
    upsert_policy(&mut record, Policy::Normal, Source::Auto, None, NOW);
    apply_outcome(
        &mut record,
        &CheckOutcomeKind::Gone("该用户不存在".to_string()),
        LATER,
    );
    let p = load_policy(&record).unwrap();
    assert_eq!(p.policy, Policy::Blacklist, "删号应写黑名单");
    assert_eq!(p.source, Source::Auto);
    assert_eq!(p.reason.as_deref(), Some("UP 已删号/不可恢复：该用户不存在"));
    assert!(!enabled(&record), "enabled 保持 false");
    assert!(p.reason.as_deref().unwrap().contains("删号"), "reason 应注明删号");
}

#[test]
fn phase2_banned_observation_outcome_writes_banned() {
    let mut record = insert_submission(25, 301, "banned_up", false);
    upsert_policy(&mut record, Policy::Normal, Source::Auto, None, NOW);
    apply_outcome(
        &mut record,
        &CheckOutcomeKind::BannedObservation("该账号已封禁".to_string()),
        LATER,
    );
    let p = load_policy(&record).unwrap();
    assert_eq!(p.policy, Policy::Banned, "封禁应写封禁观察而非黑名单");
    assert_eq!(p.source, Source::Auto);
    assert_eq!(p.reason.as_deref(), Some("封禁观察，待人工判断：该账号已封禁"));
    assert!(!enabled(&record), "enabled 保持 false，不自动启用");
    assert!(p.reason.as_deref().unwrap().contains("封禁观察"), "reason 应注明封禁观察");
    let records = vec![record];
    let inactive = fetch_inactive_candidates(&records, &vec![]);
    assert!(!inactive.iter().any(|c| c.submission_id == 25));
    let recheck = fetch_disabled_for_recheck(&records, &vec![]);
    assert!(!recheck.iter().any(|c| c.submission_id == 25));
}

#[test]
fn inspection_does_not_overwrite_a_policy_written_meanwhile() {
    let mut record = insert_submission(26, 302, "user_wins", false);
    upsert_policy(&mut record, Policy::Blacklist, Source::Manual, None, NOW);
    let latest = Timestamp { secs: 1_700_000_000, nanos: 0 };
    let write = apply_outcome(&mut record, &CheckOutcomeKind::Recovered(latest), LATER);
    assert_eq!(write, PolicyWrite::Keep);
    assert!(!enabled(&record));
    assert_eq!(load_policy(&record).unwrap().policy, Policy::Blacklist);

    let mut record = insert_submission(27, 303, "kept", true);
    upsert_policy(&mut record, Policy::Whitelist, Source::Manual, None, NOW);
    assert_eq!(disable_inactive(&mut record, 400, LATER), PolicyWrite::Keep);
    assert!(enabled(&record));
    assert_eq!(load_policy(&record).unwrap().policy, Policy::Whitelist);
}

#[test]
fn activity_is_judged_by_whole_days() {
    let cand = |last: Option<Timestamp>| SubmissionActivity {
        submission_id: 1,
        upper_id: 1,
        upper_name: "u".to_string(),
        last_pubtime: last,
    };
    let back = |days: i64, nanos: u32| {
        Some(Timestamp { secs: NOW.secs - days * SECS_PER_DAY, nanos })
    };
    assert_eq!(judge_activity(&cand(None), NOW, 90), ActivityVerdict::Indeterminate);
    assert_eq!(
        judge_activity(&cand(back(91, NOW.nanos)), NOW, 90),
        ActivityVerdict::Inactive(91)
    );
    assert_eq!(
        judge_activity(&cand(back(91, NOW.nanos + 1)), NOW, 90),
        ActivityVerdict::Active
    );
    assert_eq!(judge_activity(&cand(back(90, 0)), NOW, 90), ActivityVerdict::Active);
    assert_eq!(judge_activity(&cand(back(-3, 0)), NOW, 90), ActivityVerdict::Active);
}
