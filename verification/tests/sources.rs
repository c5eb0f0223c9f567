use bili_sync::api::InnerApiError;
use bili_sync::policy::{
    PolicyRow, PolicyWrite, SubmissionRow, UpperManagePolicy, UpperManageSource, UpperRecord,
};
use bili_sync::sources::{
    default_path_template, get_video_sources, get_video_sources_details, parse_source_type,
    update_submission_source, update_video_source, RuleInfo, SourceRow, SourceSave,
    SourceSettings, StoredSource, UpdateVideoSourceRequest, VideoSource, VideoSourceDetail,
};
use bili_sync::time::Timestamp;
use bili_sync::videos::SourceType;

const NOW: Timestamp = Timestamp { secs: 1_780_000_000, nanos: 0 };

fn record(
    enabled: bool,
    policy: Option<(UpperManagePolicy, UpperManageSource)>,
) -> UpperRecord {
    UpperRecord {
        submission: SubmissionRow {
            id: 3,
            upper_id: 33,
            upper_name: "up".to_string(),
            path: "/old".to_string(),
            enabled,
            rule: None,
            filter_option: Some("{}".to_string()),
            use_dynamic_api: true,
        },
        policy: policy.map(|(policy, source)| PolicyRow {
            submission_id: 3,
            policy,
            source,
            reason: None,
            updated_at: Timestamp { secs: 0, nanos: 0 },
        }),
    }
}

fn request(enabled: bool) -> UpdateVideoSourceRequest {
    UpdateVideoSourceRequest {
        path: "/new".to_string(),
        enabled,
        rule: Some(RuleInfo { stored: "[[]]".to_string(), shown: "标题包含 x".to_string() }),
        filter_option: None,
        use_dynamic_api: None,
    }
}

fn assert_settings(record: &UpperRecord) {
    assert_eq!(record.submission.id, 3);
    assert_eq!(record.submission.upper_id, 33);
    assert_eq!(record.submission.upper_name, "up");
    assert_eq!(record.submission.path, "/new");
    assert_eq!(record.submission.rule.as_deref(), Some("[[]]"));
    assert_eq!(record.submission.filter_option, None);
    assert!(record.submission.use_dynamic_api);
}

#[test]
fn update_video_source_disables_normal_submission_writes_normal_auto_policy() {
    let (after, write) =
        update_submission_source(record(true, None), &request(false), NOW).unwrap();
    assert_settings(&after);
    assert_eq!(write, PolicyWrite::Insert);
    assert!(!after.submission.enabled);
    let row = after.policy.as_ref().unwrap();
    assert_eq!(row.policy, UpperManagePolicy::Normal);
    assert_eq!(row.source, UpperManageSource::Auto);
    assert_eq!(row.reason.as_deref(), Some("用户手动禁用"));
    assert_eq!(row.updated_at, NOW);
    assert!(after.is_recheck_candidate());
}

#[test]
fn update_video_source_disables_normal_manual_submission_rewrites_to_auto() {
    let before =
        record(true, Some((UpperManagePolicy::Normal, UpperManageSource::Manual)));
    let (after, write) = update_submission_source(before, &request(false), NOW).unwrap();
    assert_eq!(write, PolicyWrite::Update);
    assert_eq!(after.policy.as_ref().unwrap().source, UpperManageSource::Auto);
    assert!(after.is_recheck_candidate());
}

#[test]
fn update_video_source_enables_normal_auto_submission_deletes_policy() {
    let before =
        record(false, Some((UpperManagePolicy::Normal, UpperManageSource::Auto)));
    let (after, write) = update_submission_source(before, &request(true), NOW).unwrap();
    assert_eq!(write, PolicyWrite::Delete);
    assert!(after.submission.enabled);
    assert!(after.policy.is_none());
    let (after, write) =
        update_submission_source(record(false, None), &request(true), NOW).unwrap();
    assert_eq!(write, PolicyWrite::Keep);
    assert!(after.submission.enabled);
    assert!(after.policy.is_none());
}

#[test]
fn update_video_source_rejects_enabled_change_under_high_level_policy() {
    for (policy, label) in [
        (UpperManagePolicy::Whitelist, "白名单"),
        (UpperManagePolicy::Blacklist, "黑名单"),
        (UpperManagePolicy::Banned, "封禁观察"),
    ] {
        for enabled in [true, false] {
            for source in [UpperManageSource::Auto, UpperManageSource::Manual] {
                let before = record(enabled, Some((policy, source)));
                let error =
                    update_submission_source(before, &request(!enabled), NOW).unwrap_err();
                assert_eq!(error.status_code(), 409);
                match error {
                    InnerApiError::PolicyProtected(text) => assert_eq!(
                        text,
                        format!(
                            "该 UP 受「{}」保护，请先在 UP 自动管理页面调整策略",
                            label
                        )
                    ),
                    other => panic!("{:?}", other),
                }
                let before = record(enabled, Some((policy, source)));
                let (after, write) =
                    update_submission_source(before, &request(enabled), NOW).unwrap();
                assert_settings(&after);
                assert_eq!(write, PolicyWrite::Keep);
                assert_eq!(after.submission.enabled, enabled);
                assert_eq!(after.policy.unwrap().policy, policy);
            }
        }
    }
}

#[test]
fn update_video_source_no_op_when_enabled_unchanged() {
    for enabled in [true, false] {
        let before =
            record(enabled, Some((UpperManagePolicy::Normal, UpperManageSource::Manual)));
        let (after, write) =
            update_submission_source(before, &request(enabled), NOW).unwrap();
        assert_settings(&after);
        assert_eq!(write, PolicyWrite::Keep);
        let row = after.policy.unwrap();
        assert_eq!(row.source, UpperManageSource::Manual);
        assert_eq!(row.updated_at, Timestamp { secs: 0, nanos: 0 });
    }
}

#[test]
fn dynamic_api_changes_only_where_given() {
    let mut wanted = request(true);
    wanted.use_dynamic_api = Some(false);
    let (after, _) = update_submission_source(record(true, None), &wanted, NOW).unwrap();
    assert!(!after.submission.use_dynamic_api);
}

#[test]
fn enabling_by_hand_undoes_disabling_by_hand() {
    let (disabled, _) =
        update_submission_source(record(true, None), &request(false), NOW).unwrap();
    let (enabled, write) =
        update_submission_source(disabled, &request(true), NOW).unwrap();
    assert_eq!(write, PolicyWrite::Delete);
    assert!(enabled.submission.enabled);
    assert!(enabled.policy.is_none());
    assert!(enabled.is_inactive_candidate());
}

fn row(id: i32) -> SourceRow {
    SourceRow {
        id,
        settings: SourceSettings {
            path: "/old".to_string(),
            enabled: false,
            rule: None,
            filter_option: None,
        },
    }
}

fn update(
    stored: StoredSource,
    id: i32,
) -> Result<(SourceSave, Option<String>), InnerApiError> {
    update_video_source(stored, id, request(true), NOW)
        .map(|(save, answer)| (save, answer.rule_display))
}

#[test]
fn stored_sources_take_the_settings() {
    for stored in [
        StoredSource::Collection(Some(row(8))),
        StoredSource::Favorite(Some(row(8))),
        StoredSource::WatchLater(Some(row(8))),
    ] {
        let (save, shown) = update(stored, 8).unwrap();
        assert_eq!(shown.as_deref(), Some("标题包含 x"));
        match save {
            SourceSave::Update(row) => {
                assert_eq!(row.id, 8);
                assert_eq!(row.settings.path, "/new");
                assert!(row.settings.enabled);
                assert_eq!(row.settings.rule.as_deref(), Some("[[]]"));
            }
            other => panic!("{:?}", other),
        }
    }
    let (save, shown) =
        update(StoredSource::Submission(Some(record(true, None))), 3).unwrap();
    assert_eq!(shown.as_deref(), Some("标题包含 x"));
    assert!(matches!(save, SourceSave::Submission(_, PolicyWrite::Keep)));
    let protected = record(
        false,
        Some((UpperManagePolicy::Banned, UpperManageSource::Auto)),
    );
    assert!(matches!(
        update(StoredSource::Submission(Some(protected)), 3),
        Err(InnerApiError::PolicyProtected(_))
    ));
}

#[test]
fn missing_sources_are_refused_but_for_the_default_one() {
    for stored in [
        StoredSource::Collection(None),
        StoredSource::Favorite(None),
        StoredSource::Submission(None),
    ] {
        assert!(matches!(update(stored, 1), Err(InnerApiError::NotFound(1))));
    }
    assert!(matches!(
        update(StoredSource::WatchLater(None), 2),
        Err(InnerApiError::NotFound(2))
    ));
    match update(StoredSource::WatchLater(None), 1).unwrap().0 {
        SourceSave::InsertWatchLater(settings) => {
            assert_eq!(settings.path, "/new");
            assert!(settings.enabled);
        }
        other => panic!("{:?}", other),
    }
}

#[test]
fn source_types_are_read_from_their_names() {
    assert_eq!(parse_source_type("collections").unwrap(), SourceType::Collection);
    assert_eq!(parse_source_type("favorites").unwrap(), SourceType::Favorite);
    assert_eq!(parse_source_type("submissions").unwrap(), SourceType::Submission);
    assert_eq!(parse_source_type("watch_later").unwrap(), SourceType::WatchLater);
    assert!(matches!(
        parse_source_type("collection"),
        Err(InnerApiError::BadRequest(text)) if text == "Invalid video source type"
    ));
}

#[test]
fn default_paths_come_from_templates() {
    assert_eq!(default_path_template("favorites").unwrap(), "favorite_default_path");
    assert_eq!(default_path_template("collections").unwrap(), "collection_default_path");
    assert_eq!(default_path_template("submissions").unwrap(), "submission_default_path");
    assert!(matches!(
        default_path_template("watch_later"),
        Err(InnerApiError::BadRequest(text)) if text == "Invalid video source type"
    ));
}

#[test]
fn watch_later_is_always_listed() {
    let named = |id: i32| VideoSource { id, name: format!("s{}", id) };
    let answer = get_video_sources(vec![named(4)], vec![], vec![named(6), named(5)], vec![]);
    assert_eq!(answer.collection[0].name, "s4");
    assert!(answer.favorite.is_empty());
    assert_eq!(answer.submission[1].id, 5);
    assert_eq!(answer.watch_later.len(), 1);
    assert_eq!(answer.watch_later[0].id, 1);
    assert_eq!(answer.watch_later[0].name, "稍后再看");
    let answer = get_video_sources(vec![], vec![], vec![], vec![9]);
    assert_eq!(answer.watch_later.len(), 1);
    assert_eq!(answer.watch_later[0].id, 9);
    assert_eq!(answer.watch_later[0].name, "稍后再看");
}

fn detail(id: i32, rule: Option<&str>, at: Option<Timestamp>) -> VideoSourceDetail {
    VideoSourceDetail {
        id,
        name: "n".to_string(),
        path: "/p".to_string(),
        rule: rule.map(|shown| RuleInfo {
            stored: "[]".to_string(),
            shown: shown.to_string(),
        }),
        filter_option: None,
        rule_display: None,
        use_dynamic_api: Some(true),
        upper_id: Some(2),
        enabled: true,
        latest_row_at: at,
    }
}

#[test]
fn details_show_rules_and_real_times() {
    let epoch = Timestamp { secs: 0, nanos: 3 };
    let answer = get_video_sources_details(
        vec![detail(1, Some("规则"), Some(epoch))],
        vec![detail(2, None, Some(NOW))],
        vec![detail(3, None, None)],
        vec![],
    );
    assert_eq!(answer.collections[0].rule_display.as_deref(), Some("规则"));
    assert_eq!(answer.collections[0].latest_row_at, None);
    assert_eq!(answer.favorites[0].rule_display, None);
    assert_eq!(answer.favorites[0].latest_row_at, Some(NOW));
    assert_eq!(answer.submissions[0].upper_id, Some(2));
    let watch_later = &answer.watch_later[0];
    assert_eq!(watch_later.id, 1);
    assert_eq!(watch_later.name, "稍后再看");
    assert_eq!(watch_later.path, "");
    assert!(!watch_later.enabled);
    let answer = get_video_sources_details(
        vec![],
        vec![],
        vec![],
        vec![detail(1, Some("x"), Some(NOW))],
    );
    assert_eq!(answer.watch_later.len(), 1);
    assert_eq!(answer.watch_later[0].path, "/p");
    assert_eq!(answer.watch_later[0].rule_display.as_deref(), Some("x"));
}
