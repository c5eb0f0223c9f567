use bili_sync::migration::{
    column_name, index_name, table_name, ColumnDefault, ColumnId, ColumnType, IndexId, Migration,
    SchemaStep, TableId,
};

const ALL: [Migration; 5] = [
    Migration::UpperAutoManage,
    Migration::BannedObservationCount,
    Migration::VideoQueryIndexes,
    Migration::RunStats,
    Migration::DownloadRuns,
];

/// What each step names, in the words of the database.
fn words(steps: &[SchemaStep]) -> Vec<String> {
    steps
        .iter()
        .map(|step| match step {
            SchemaStep::CreateTable { table, columns, foreign_keys } => format!(
                "create {}({}) {}",
                table_name(*table),
                columns
                    .iter()
                    .map(|c| column_name(c.column).to_string())
                    .collect::<Vec<_>>()
                    .join(","),
                foreign_keys
                    .iter()
                    .map(|k| format!(
                        "{}->{}.{}",
                        column_name(k.column),
                        table_name(k.to_table),
                        column_name(k.to_column)
                    ))
                    .collect::<Vec<_>>()
                    .join(",")
            ),
            SchemaStep::DropTable { table } => format!("drop {}", table_name(*table)),
            SchemaStep::CreateIndex { index, table, over } => format!(
                "index {} on {}({})",
                index_name(*index),
                table_name(*table),
                over.iter().map(|c| column_name(*c).to_string()).collect::<Vec<_>>().join(",")
            ),
            SchemaStep::DropIndex { index, table } => {
                format!("drop index {} on {}", index_name(*index), table_name(*table))
            }
            SchemaStep::AddColumn { table, plan } => {
                format!("add {}.{}", table_name(*table), column_name(plan.column))
            }
            SchemaStep::DropColumn { table, column } => {
                format!("remove {}.{}", table_name(*table), column_name(*column))
            }
            SchemaStep::RenameColumn { table, from, to } => format!(
                "rename {}.{} to {}",
                table_name(*table),
                column_name(*from),
                column_name(*to)
            ),
        })
        .collect()
}

#[test]
fn first_migration_creates_three_tables() {
    assert_eq!(
        words(&Migration::UpperAutoManage.up()),
        vec![
            "create upper_auto_manage_policy(submission_id,policy,source,reason,updated_at) submission_id->submission.id",
            "create upper_auto_manage_run(id,started_at,finished_at,status,checked_count,disabled_count,enabled_count,banned_count,skipped_count,error_message,summary) ",
            "index idx_upper_auto_manage_run_started_at on upper_auto_manage_run(started_at)",
            "create upper_auto_manage_action(id,run_id,submission_id,upper_name,action,reason,created_at) run_id->upper_auto_manage_run.id,submission_id->submission.id",
            "index idx_upper_auto_manage_action_run_id on upper_auto_manage_action(run_id)",
            "index idx_upper_auto_manage_action_submission_id on upper_auto_manage_action(submission_id)",
        ]
    );
    assert_eq!(
        words(&Migration::UpperAutoManage.down()),
        vec![
            "drop upper_auto_manage_action",
            "drop upper_auto_manage_run",
            "drop upper_auto_manage_policy",
        ]
    );
}

#[test]
fn columns_have_their_types_and_defaults() {
    let steps = Migration::UpperAutoManage.up();
    match &steps[0] {
        SchemaStep::CreateTable { columns, .. } => {
            assert!(columns[0].primary_key && columns[0].not_null && !columns[0].auto_increment);
            assert_eq!(columns[1].default, ColumnDefault::Normal);
            assert_eq!(columns[1].column_type, ColumnType::Text);
            assert_eq!(columns[2].default, ColumnDefault::Auto);
            assert!(!columns[3].not_null);
            assert_eq!(columns[4].default, ColumnDefault::CurrentTimestamp);
            assert_eq!(columns[4].column_type, ColumnType::Timestamp);
        }
        other => panic!("{:?}", other),
    }
    match &steps[1] {
        SchemaStep::CreateTable { columns, .. } => {
            assert!(columns[0].primary_key && columns[0].auto_increment);
            assert_eq!(columns[4].default, ColumnDefault::Zero);
            assert_eq!(columns[4].column_type, ColumnType::Integer);
        }
        other => panic!("{:?}", other),
    }
}

#[test]
fn migration_adds_banned_observation_count_with_default_zero() {
    let steps = Migration::BannedObservationCount.up();
    assert_eq!(words(&steps), vec!["add upper_auto_manage_run.banned_observation_count"]);
    match &steps[0] {
        SchemaStep::AddColumn { plan, .. } => {
            assert_eq!(plan.default, ColumnDefault::Zero);
            assert!(plan.not_null);
        }
        other => panic!("{:?}", other),
    }
}

#[test]
fn rollback_migration_drops_banned_observation_count() {
    assert_eq!(
        words(&Migration::BannedObservationCount.down()),
        vec!["remove upper_auto_manage_run.banned_observation_count"]
    );
}

#[test]
fn video_indexes_put_the_source_first() {
    let up = words(&Migration::VideoQueryIndexes.up());
    assert_eq!(
        up,
        vec![
            "index idx_video_favorite_id_id on video(favorite_id,id)",
            "index idx_video_submission_id_id on video(submission_id,id)",
            "index idx_video_collection_id_id on video(collection_id,id)",
            "index idx_video_watch_later_id_id on video(watch_later_id,id)",
        ]
    );
    assert_eq!(Migration::VideoQueryIndexes.down().len(), 4);
    assert_eq!(
        words(&Migration::VideoQueryIndexes.down())[3],
        "drop index idx_video_watch_later_id_id on video"
    );
}

#[test]
fn run_counts_are_split() {
    assert_eq!(
        words(&Migration::RunStats.up()),
        vec![
            "add upper_auto_manage_run.active_count",
            "add upper_auto_manage_run.indeterminate_count",
            "rename upper_auto_manage_run.skipped_count to still_inactive_count",
        ]
    );
    assert_eq!(
        words(&Migration::RunStats.down()),
        vec![
            "rename upper_auto_manage_run.still_inactive_count to skipped_count",
            "remove upper_auto_manage_run.indeterminate_count",
            "remove upper_auto_manage_run.active_count",
        ]
    );
}

#[test]
fn download_runs_have_a_table() {
    assert_eq!(
        words(&Migration::DownloadRuns.up()),
        vec![
            "create download_run(id,started_at,finished_at,status,trigger,error_message) ",
            "index idx_download_run_started_at on download_run(started_at)",
        ]
    );
    assert_eq!(words(&Migration::DownloadRuns.down()), vec!["drop download_run"]);
}

#[test]
fn migrations_are_named_in_their_order() {
    let names: Vec<&str> = ALL.iter().map(|m| m.name()).collect();
    let mut sorted = names.clone();
    sorted.sort();
    assert_eq!(names, sorted);
    assert_eq!(names[3], "m20260814_000001_refactor_upper_auto_manage_run_stats");
    assert_eq!(column_name(ColumnId::StillInactiveCount), "still_inactive_count");
    assert_eq!(index_name(IndexId::DownloadRunStartedAt), "idx_download_run_started_at");
    assert_eq!(table_name(TableId::UpperAutoManageAction), "upper_auto_manage_action");
}
