//! The steps that bring the database to the form that the automatic management, the video lists
//! and the run history need, and the steps back.
use vstd::prelude::*;

verus! {

/// The tables that the steps create, change or refer to.
#[derive(Clone, Copy, Debug, PartialEq, Eq, Structural)]
pub enum TableId {
    Submission,
    Video,
    UpperAutoManagePolicy,
    UpperAutoManageRun,
    UpperAutoManageAction,
    DownloadRun,
}

/// The name of a table.
pub open spec fn table_text(id: TableId) -> Seq<char> {
    match id {
        TableId::Submission => "submission"@,
        TableId::Video => "video"@,
        TableId::UpperAutoManagePolicy => "upper_auto_manage_policy"@,
        TableId::UpperAutoManageRun => "upper_auto_manage_run"@,
        TableId::UpperAutoManageAction => "upper_auto_manage_action"@,
        TableId::DownloadRun => "download_run"@,
    }
}

/// The name of a table.
pub fn table_name(id: TableId) -> (r: &'static str)
    ensures
        r@ == table_text(id),
{
    match id {
        TableId::Submission => "submission",
        TableId::Video => "video",
        TableId::UpperAutoManagePolicy => "upper_auto_manage_policy",
        TableId::UpperAutoManageRun => "upper_auto_manage_run",
        TableId::UpperAutoManageAction => "upper_auto_manage_action",
        TableId::DownloadRun => "download_run",
    }
}

/// The columns that the steps create, change or refer to.
#[derive(Clone, Copy, Debug, PartialEq, Eq, Structural)]
pub enum ColumnId {
    Id,
    SubmissionId,
    FavoriteId,
    CollectionId,
    WatchLaterId,
    Policy,
    Source,
    Reason,
    UpdatedAt,
    StartedAt,
    FinishedAt,
    Status,
    CheckedCount,
    DisabledCount,
    EnabledCount,
    BannedCount,
    SkippedCount,
    BannedObservationCount,
    ActiveCount,
    IndeterminateCount,
    StillInactiveCount,
    ErrorMessage,
    Summary,
    RunId,
    UpperName,
    Action,
    CreatedAt,
    Trigger,
}

/// The name of a column.
pub open spec fn column_text(id: ColumnId) -> Seq<char> {
    match id {
        ColumnId::Id => "id"@,
        ColumnId::SubmissionId => "submission_id"@,
        ColumnId::FavoriteId => "favorite_id"@,
        ColumnId::CollectionId => "collection_id"@,
        ColumnId::WatchLaterId => "watch_later_id"@,
        ColumnId::Policy => "policy"@,
        ColumnId::Source => "source"@,
        ColumnId::Reason => "reason"@,
        ColumnId::UpdatedAt => "updated_at"@,
        ColumnId::StartedAt => "started_at"@,
        ColumnId::FinishedAt => "finished_at"@,
        ColumnId::Status => "status"@,
        ColumnId::CheckedCount => "checked_count"@,
        ColumnId::DisabledCount => "disabled_count"@,
        ColumnId::EnabledCount => "enabled_count"@,
        ColumnId::BannedCount => "banned_count"@,
        ColumnId::SkippedCount => "skipped_count"@,
        ColumnId::BannedObservationCount => "banned_observation_count"@,
        ColumnId::ActiveCount => "active_count"@,
        ColumnId::IndeterminateCount => "indeterminate_count"@,
        ColumnId::StillInactiveCount => "still_inactive_count"@,
        ColumnId::ErrorMessage => "error_message"@,
        ColumnId::Summary => "summary"@,
        ColumnId::RunId => "run_id"@,
        ColumnId::UpperName => "upper_name"@,
        ColumnId::Action => "action"@,
        ColumnId::CreatedAt => "created_at"@,
        ColumnId::Trigger => "trigger"@,
    }
}

/// The name of a column.
pub fn column_name(id: ColumnId) -> (r: &'static str)
    ensures
        r@ == column_text(id),
{
    match id {
        ColumnId::Id => "id",
        ColumnId::SubmissionId => "submission_id",
        ColumnId::FavoriteId => "favorite_id",
        ColumnId::CollectionId => "collection_id",
        ColumnId::WatchLaterId => "watch_later_id",
        ColumnId::Policy => "policy",
        ColumnId::Source => "source",
        ColumnId::Reason => "reason",
        ColumnId::UpdatedAt => "updated_at",
        ColumnId::StartedAt => "started_at",
        ColumnId::FinishedAt => "finished_at",
        ColumnId::Status => "status",
        ColumnId::CheckedCount => "checked_count",
        ColumnId::DisabledCount => "disabled_count",
        ColumnId::EnabledCount => "enabled_count",
        ColumnId::BannedCount => "banned_count",
        ColumnId::SkippedCount => "skipped_count",
        ColumnId::BannedObservationCount => "banned_observation_count",
        ColumnId::ActiveCount => "active_count",
        ColumnId::IndeterminateCount => "indeterminate_count",
        ColumnId::StillInactiveCount => "still_inactive_count",
        ColumnId::ErrorMessage => "error_message",
        ColumnId::Summary => "summary",
        ColumnId::RunId => "run_id",
        ColumnId::UpperName => "upper_name",
        ColumnId::Action => "action",
        ColumnId::CreatedAt => "created_at",
        ColumnId::Trigger => "trigger",
    }
}

/// The indexes that the steps create.
#[derive(Clone, Copy, Debug, PartialEq, Eq, Structural)]
pub enum IndexId {
    UpperAutoManageRunStartedAt,
    UpperAutoManageActionRunId,
    UpperAutoManageActionSubmissionId,
    VideoFavoriteIdId,
    VideoSubmissionIdId,
    VideoCollectionIdId,
    VideoWatchLaterIdId,
    DownloadRunStartedAt,
}

/// The name of an index.
pub open spec fn index_text(id: IndexId) -> Seq<char> {
    match id {
        IndexId::UpperAutoManageRunStartedAt => "idx_upper_auto_manage_run_started_at"@,
        IndexId::UpperAutoManageActionRunId => "idx_upper_auto_manage_action_run_id"@,
        IndexId::UpperAutoManageActionSubmissionId => "idx_upper_auto_manage_action_submission_id"@,
        IndexId::VideoFavoriteIdId => "idx_video_favorite_id_id"@,
        IndexId::VideoSubmissionIdId => "idx_video_submission_id_id"@,
        IndexId::VideoCollectionIdId => "idx_video_collection_id_id"@,
        IndexId::VideoWatchLaterIdId => "idx_video_watch_later_id_id"@,
        IndexId::DownloadRunStartedAt => "idx_download_run_started_at"@,
    }
}

/// The name of an index.
pub fn index_name(id: IndexId) -> (r: &'static str)
    ensures
        r@ == index_text(id),
{
    match id {
        IndexId::UpperAutoManageRunStartedAt => "idx_upper_auto_manage_run_started_at",
        IndexId::UpperAutoManageActionRunId => "idx_upper_auto_manage_action_run_id",
        IndexId::UpperAutoManageActionSubmissionId => "idx_upper_auto_manage_action_submission_id",
        IndexId::VideoFavoriteIdId => "idx_video_favorite_id_id",
        IndexId::VideoSubmissionIdId => "idx_video_submission_id_id",
        IndexId::VideoCollectionIdId => "idx_video_collection_id_id",
        IndexId::VideoWatchLaterIdId => "idx_video_watch_later_id_id",
        IndexId::DownloadRunStartedAt => "idx_download_run_started_at",
    }
}

/// The types of the columns.
#[derive(Clone, Copy, Debug, PartialEq, Eq, Structural)]
pub enum ColumnType {
    Integer,
    Text,
    Timestamp,
}

/// What a column holds where nothing is given.
#[derive(Clone, Copy, Debug, PartialEq, Eq, Structural)]
pub enum ColumnDefault {
    Nothing,
    Zero,
    /// The name of the normal policy.
    Normal,
    /// The name of the automatic source.
    Auto,
    CurrentTimestamp,
}

/// A column.
#[derive(Clone, Copy, Debug, PartialEq, Eq, Structural)]
pub struct ColumnPlan {
    pub column: ColumnId,
    pub column_type: ColumnType,
    pub not_null: bool,
    pub primary_key: bool,
    pub auto_increment: bool,
    pub default: ColumnDefault,
}

/// A column that refers to a row of another table, and goes with it.
#[derive(Clone, Copy, Debug, PartialEq, Eq, Structural)]
pub struct ForeignKeyPlan {
    pub column: ColumnId,
    pub to_table: TableId,
    pub to_column: ColumnId,
}

/// One step.
#[derive(Debug)]
pub enum SchemaStep {
    /// Creates a table, where there is none under this name.
    CreateTable { table: TableId, columns: Vec<ColumnPlan>, foreign_keys: Vec<ForeignKeyPlan> },
    /// Drops a table with its indexes.
    DropTable { table: TableId },
    CreateIndex { index: IndexId, table: TableId, over: Vec<ColumnId> },
    DropIndex { index: IndexId, table: TableId },
    AddColumn { table: TableId, plan: ColumnPlan },
    DropColumn { table: TableId, column: ColumnId },
    RenameColumn { table: TableId, from: ColumnId, to: ColumnId },
}

/// What a step says.
#[verifier::ext_equal]
pub enum StepView {
    CreateTable { table: TableId, columns: Seq<ColumnPlan>, foreign_keys: Seq<ForeignKeyPlan> },
    DropTable { table: TableId },
    CreateIndex { index: IndexId, table: TableId, over: Seq<ColumnId> },
    DropIndex { index: IndexId, table: TableId },
    AddColumn { table: TableId, plan: ColumnPlan },
    DropColumn { table: TableId, column: ColumnId },
    RenameColumn { table: TableId, from: ColumnId, to: ColumnId },
}

impl View for SchemaStep {
    type V = StepView;

    open spec fn view(&self) -> StepView {
        match *self {
            SchemaStep::CreateTable { table, columns, foreign_keys } => StepView::CreateTable {
                table,
                columns: columns@,
                foreign_keys: foreign_keys@,
            },
            SchemaStep::DropTable { table } => StepView::DropTable { table },
            SchemaStep::CreateIndex { index, table, over } => StepView::CreateIndex {
                index,
                table,
                over: over@,
            },
            SchemaStep::DropIndex { index, table } => StepView::DropIndex { index, table },
            SchemaStep::AddColumn { table, plan } => StepView::AddColumn { table, plan },
            SchemaStep::DropColumn { table, column } => StepView::DropColumn { table, column },
            SchemaStep::RenameColumn { table, from, to } => StepView::RenameColumn {
                table,
                from,
                to,
            },
        }
    }
}

/// What several steps say.
pub open spec fn step_views(steps: Seq<SchemaStep>) -> Seq<StepView> {
    Seq::new(steps.len(), |i: int| steps[i]@)
}

/// A plain column that must be filled.
pub open spec fn required(column: ColumnId, column_type: ColumnType) -> ColumnPlan {
    ColumnPlan {
        column,
        column_type,
        not_null: true,
        primary_key: false,
        auto_increment: false,
        default: ColumnDefault::Nothing,
    }
}

/// A plain column that may be left empty.
pub open spec fn optional(column: ColumnId, column_type: ColumnType) -> ColumnPlan {
    ColumnPlan {
        column,
        column_type,
        not_null: false,
        primary_key: false,
        auto_increment: false,
        default: ColumnDefault::Nothing,
    }
}

/// A column that is never empty, because something is there where nothing is given.
pub open spec fn defaulted(
    column: ColumnId,
    column_type: ColumnType,
    default: ColumnDefault,
) -> ColumnPlan {
    ColumnPlan {
        column,
        column_type,
        not_null: true,
        primary_key: false,
        auto_increment: false,
        default,
    }
}

/// The number that tells the rows of a table apart; it counts up by itself, or it does not.
pub open spec fn key(column: ColumnId, auto_increment: bool) -> ColumnPlan {
    ColumnPlan {
        column,
        column_type: ColumnType::Integer,
        not_null: true,
        primary_key: true,
        auto_increment,
        default: ColumnDefault::Nothing,
    }
}

fn required_column(column: ColumnId, column_type: ColumnType) -> (r: ColumnPlan)
    ensures
        r == required(column, column_type),
{
    ColumnPlan {
        column,
        column_type,
        not_null: true,
        primary_key: false,
        auto_increment: false,
        default: ColumnDefault::Nothing,
    }
}

fn optional_column(column: ColumnId, column_type: ColumnType) -> (r: ColumnPlan)
    ensures
        r == optional(column, column_type),
{
    ColumnPlan {
        column,
        column_type,
        not_null: false,
        primary_key: false,
        auto_increment: false,
        default: ColumnDefault::Nothing,
    }
}

fn defaulted_column(column: ColumnId, column_type: ColumnType, default: ColumnDefault) -> (r:
    ColumnPlan)
    ensures
        r == defaulted(column, column_type, default),
{
    ColumnPlan {
        column,
        column_type,
        not_null: true,
        primary_key: false,
        auto_increment: false,
        default,
    }
}

fn key_column(column: ColumnId, auto_increment: bool) -> (r: ColumnPlan)
    ensures
        r == key(column, auto_increment),
{
    ColumnPlan {
        column,
        column_type: ColumnType::Integer,
        not_null: true,
        primary_key: true,
        auto_increment,
        default: ColumnDefault::Nothing,
    }
}

/// The groups of steps, in the order in which they are taken.
#[derive(Clone, Copy, Debug, PartialEq, Eq, Structural)]
pub enum Migration {
    /// The tables of the automatic management: policies, runs and actions.
    UpperAutoManage,
    /// The count of the uploaders that a run set aside.
    BannedObservationCount,
    /// The indexes that find the videos of a source, newest first.
    VideoQueryIndexes,
    /// The counts of a run that tell apart who needed nothing, about whom nothing is known, and who
    /// stays disabled.
    RunStats,
    /// The table of the runs of the download task.
    DownloadRuns,
}

/// The steps of [`Migration::UpperAutoManage`].
pub open spec fn upper_auto_manage_up() -> Seq<StepView> {
    seq![
        StepView::CreateTable {
            table: TableId::UpperAutoManagePolicy,
            columns: seq![
                key(ColumnId::SubmissionId, false),
                defaulted(ColumnId::Policy, ColumnType::Text, ColumnDefault::Normal),
                defaulted(ColumnId::Source, ColumnType::Text, ColumnDefault::Auto),
                optional(ColumnId::Reason, ColumnType::Text),
                defaulted(ColumnId::UpdatedAt, ColumnType::Timestamp, ColumnDefault::CurrentTimestamp),
            ],
            foreign_keys: seq![
                ForeignKeyPlan {
                    column: ColumnId::SubmissionId,
                    to_table: TableId::Submission,
                    to_column: ColumnId::Id,
                },
            ],
        },
        StepView::CreateTable {
            table: TableId::UpperAutoManageRun,
            columns: seq![
                key(ColumnId::Id, true),
                required(ColumnId::StartedAt, ColumnType::Timestamp),
                optional(ColumnId::FinishedAt, ColumnType::Timestamp),
                required(ColumnId::Status, ColumnType::Text),
                defaulted(ColumnId::CheckedCount, ColumnType::Integer, ColumnDefault::Zero),
                defaulted(ColumnId::DisabledCount, ColumnType::Integer, ColumnDefault::Zero),
                defaulted(ColumnId::EnabledCount, ColumnType::Integer, ColumnDefault::Zero),
                defaulted(ColumnId::BannedCount, ColumnType::Integer, ColumnDefault::Zero),
                defaulted(ColumnId::SkippedCount, ColumnType::Integer, ColumnDefault::Zero),
                optional(ColumnId::ErrorMessage, ColumnType::Text),
                optional(ColumnId::Summary, ColumnType::Text),
            ],
            foreign_keys: Seq::empty(),
        },
        StepView::CreateIndex {
            index: IndexId::UpperAutoManageRunStartedAt,
            table: TableId::UpperAutoManageRun,
            over: seq![ColumnId::StartedAt],
        },
        StepView::CreateTable {
            table: TableId::UpperAutoManageAction,
            columns: seq![
                key(ColumnId::Id, true),
                required(ColumnId::RunId, ColumnType::Integer),
                required(ColumnId::SubmissionId, ColumnType::Integer),
                required(ColumnId::UpperName, ColumnType::Text),
                required(ColumnId::Action, ColumnType::Text),
                optional(ColumnId::Reason, ColumnType::Text),
                defaulted(ColumnId::CreatedAt, ColumnType::Timestamp, ColumnDefault::CurrentTimestamp),
            ],
            foreign_keys: seq![
                ForeignKeyPlan {
                    column: ColumnId::RunId,
                    to_table: TableId::UpperAutoManageRun,
                    to_column: ColumnId::Id,
                },
                ForeignKeyPlan {
                    column: ColumnId::SubmissionId,
                    to_table: TableId::Submission,
                    to_column: ColumnId::Id,
                },
            ],
        },
        StepView::CreateIndex {
            index: IndexId::UpperAutoManageActionRunId,
            table: TableId::UpperAutoManageAction,
            over: seq![ColumnId::RunId],
        },
        StepView::CreateIndex {
            index: IndexId::UpperAutoManageActionSubmissionId,
            table: TableId::UpperAutoManageAction,
            over: seq![ColumnId::SubmissionId],
        },
    ]
}

/// The steps back of [`Migration::UpperAutoManage`].
pub open spec fn upper_auto_manage_down() -> Seq<StepView> {
    seq![
        StepView::DropTable { table: TableId::UpperAutoManageAction },
        StepView::DropTable { table: TableId::UpperAutoManageRun },
        StepView::DropTable { table: TableId::UpperAutoManagePolicy },
    ]
}

/// The steps of [`Migration::BannedObservationCount`].
pub open spec fn banned_observation_count_up() -> Seq<StepView> {
    seq![
        StepView::AddColumn {
            table: TableId::UpperAutoManageRun,
            plan: defaulted(ColumnId::BannedObservationCount, ColumnType::Integer, ColumnDefault::Zero),
        },
    ]
}

/// The steps back of [`Migration::BannedObservationCount`].
pub open spec fn banned_observation_count_down() -> Seq<StepView> {
    seq![
        StepView::DropColumn {
            table: TableId::UpperAutoManageRun,
            column: ColumnId::BannedObservationCount,
        },
    ]
}

/// The steps of [`Migration::VideoQueryIndexes`].
pub open spec fn video_query_indexes_up() -> Seq<StepView> {
    seq![
        StepView::CreateIndex {
            index: IndexId::VideoFavoriteIdId,
            table: TableId::Video,
            over: seq![ColumnId::FavoriteId, ColumnId::Id],
        },
        StepView::CreateIndex {
            index: IndexId::VideoSubmissionIdId,
            table: TableId::Video,
            over: seq![ColumnId::SubmissionId, ColumnId::Id],
        },
        StepView::CreateIndex {
            index: IndexId::VideoCollectionIdId,
            table: TableId::Video,
            over: seq![ColumnId::CollectionId, ColumnId::Id],
        },
        StepView::CreateIndex {
            index: IndexId::VideoWatchLaterIdId,
            table: TableId::Video,
            over: seq![ColumnId::WatchLaterId, ColumnId::Id],
        },
    ]
}

/// The steps back of [`Migration::VideoQueryIndexes`].
pub open spec fn video_query_indexes_down() -> Seq<StepView> {
    seq![
        StepView::DropIndex { index: IndexId::VideoFavoriteIdId, table: TableId::Video },
        StepView::DropIndex { index: IndexId::VideoSubmissionIdId, table: TableId::Video },
        StepView::DropIndex { index: IndexId::VideoCollectionIdId, table: TableId::Video },
        StepView::DropIndex { index: IndexId::VideoWatchLaterIdId, table: TableId::Video },
    ]
}

/// The steps of [`Migration::RunStats`].
pub open spec fn run_stats_up() -> Seq<StepView> {
    seq![
        StepView::AddColumn {
            table: TableId::UpperAutoManageRun,
            plan: defaulted(ColumnId::ActiveCount, ColumnType::Integer, ColumnDefault::Zero),
        },
        StepView::AddColumn {
            table: TableId::UpperAutoManageRun,
            plan: defaulted(ColumnId::IndeterminateCount, ColumnType::Integer, ColumnDefault::Zero),
        },
        StepView::RenameColumn {
            table: TableId::UpperAutoManageRun,
            from: ColumnId::SkippedCount,
            to: ColumnId::StillInactiveCount,
        },
    ]
}

/// The steps back of [`Migration::RunStats`].
pub open spec fn run_stats_down() -> Seq<StepView> {
    seq![
        StepView::RenameColumn {
            table: TableId::UpperAutoManageRun,
            from: ColumnId::StillInactiveCount,
            to: ColumnId::SkippedCount,
        },
        StepView::DropColumn {
            table: TableId::UpperAutoManageRun,
            column: ColumnId::IndeterminateCount,
        },
        StepView::DropColumn {
            table: TableId::UpperAutoManageRun,
            column: ColumnId::ActiveCount,
        },
    ]
}

/// The steps of [`Migration::DownloadRuns`].
pub open spec fn download_runs_up() -> Seq<StepView> {
    seq![
        StepView::CreateTable {
            table: TableId::DownloadRun,
            columns: seq![
                key(ColumnId::Id, true),
                required(ColumnId::StartedAt, ColumnType::Timestamp),
                optional(ColumnId::FinishedAt, ColumnType::Timestamp),
                required(ColumnId::Status, ColumnType::Text),
                required(ColumnId::Trigger, ColumnType::Text),
                optional(ColumnId::ErrorMessage, ColumnType::Text),
            ],
            foreign_keys: Seq::empty(),
        },
        StepView::CreateIndex {
            index: IndexId::DownloadRunStartedAt,
            table: TableId::DownloadRun,
            over: seq![ColumnId::StartedAt],
        },
    ]
}

/// The steps back of [`Migration::DownloadRuns`].
pub open spec fn download_runs_down() -> Seq<StepView> {
    seq![
        StepView::DropTable { table: TableId::DownloadRun },
    ]
}

impl Migration {
    /// The steps.
    pub open spec fn up_steps(self) -> Seq<StepView> {
        match self {
            Migration::UpperAutoManage => upper_auto_manage_up(),
            Migration::BannedObservationCount => banned_observation_count_up(),
            Migration::VideoQueryIndexes => video_query_indexes_up(),
            Migration::RunStats => run_stats_up(),
            Migration::DownloadRuns => download_runs_up(),
        }
    }

    /// The steps back.
    pub open spec fn down_steps(self) -> Seq<StepView> {
        match self {
            Migration::UpperAutoManage => upper_auto_manage_down(),
            Migration::BannedObservationCount => banned_observation_count_down(),
            Migration::VideoQueryIndexes => video_query_indexes_down(),
            Migration::RunStats => run_stats_down(),
            Migration::DownloadRuns => download_runs_down(),
        }
    }

    /// The steps.
    pub fn up(self) -> (r: Vec<SchemaStep>)
        ensures
            step_views(r@) == self.up_steps(),
    {
        let r: Vec<SchemaStep> = match self {
            Migration::UpperAutoManage => vec![
                SchemaStep::CreateTable {
                    table: TableId::UpperAutoManagePolicy,
                    columns: vec![
                        key_column(ColumnId::SubmissionId, false),
                        defaulted_column(ColumnId::Policy, ColumnType::Text, ColumnDefault::Normal),
                        defaulted_column(ColumnId::Source, ColumnType::Text, ColumnDefault::Auto),
                        optional_column(ColumnId::Reason, ColumnType::Text),
                        defaulted_column(
                            ColumnId::UpdatedAt,
                            ColumnType::Timestamp,
                            ColumnDefault::CurrentTimestamp,
                        ),
                    ],
                    foreign_keys: vec![
                        ForeignKeyPlan {
                            column: ColumnId::SubmissionId,
                            to_table: TableId::Submission,
                            to_column: ColumnId::Id,
                        },
                    ],
                },
                SchemaStep::CreateTable {
                    table: TableId::UpperAutoManageRun,
                    columns: vec![
                        key_column(ColumnId::Id, true),
                        required_column(ColumnId::StartedAt, ColumnType::Timestamp),
                        optional_column(ColumnId::FinishedAt, ColumnType::Timestamp),
                        required_column(ColumnId::Status, ColumnType::Text),
                        defaulted_column(
                            ColumnId::CheckedCount,
                            ColumnType::Integer,
                            ColumnDefault::Zero,
                        ),
                        defaulted_column(
                            ColumnId::DisabledCount,
                            ColumnType::Integer,
                            ColumnDefault::Zero,
                        ),
                        defaulted_column(
                            ColumnId::EnabledCount,
                            ColumnType::Integer,
                            ColumnDefault::Zero,
                        ),
                        defaulted_column(
                            ColumnId::BannedCount,
                            ColumnType::Integer,
                            ColumnDefault::Zero,
                        ),
                        defaulted_column(
                            ColumnId::SkippedCount,
                            ColumnType::Integer,
                            ColumnDefault::Zero,
                        ),
                        optional_column(ColumnId::ErrorMessage, ColumnType::Text),
                        optional_column(ColumnId::Summary, ColumnType::Text),
                    ],
                    foreign_keys: Vec::new(),
                },
                SchemaStep::CreateIndex {
                    index: IndexId::UpperAutoManageRunStartedAt,
                    table: TableId::UpperAutoManageRun,
                    over: vec![ColumnId::StartedAt],
                },
                SchemaStep::CreateTable {
                    table: TableId::UpperAutoManageAction,
                    columns: vec![
                        key_column(ColumnId::Id, true),
                        required_column(ColumnId::RunId, ColumnType::Integer),
                        required_column(ColumnId::SubmissionId, ColumnType::Integer),
                        required_column(ColumnId::UpperName, ColumnType::Text),
                        required_column(ColumnId::Action, ColumnType::Text),
                        optional_column(ColumnId::Reason, ColumnType::Text),
                        defaulted_column(
                            ColumnId::CreatedAt,
                            ColumnType::Timestamp,
                            ColumnDefault::CurrentTimestamp,
                        ),
                    ],
                    foreign_keys: vec![
                        ForeignKeyPlan {
                            column: ColumnId::RunId,
                            to_table: TableId::UpperAutoManageRun,
                            to_column: ColumnId::Id,
                        },
                        ForeignKeyPlan {
                            column: ColumnId::SubmissionId,
                            to_table: TableId::Submission,
                            to_column: ColumnId::Id,
                        },
                    ],
                },
                SchemaStep::CreateIndex {
                    index: IndexId::UpperAutoManageActionRunId,
                    table: TableId::UpperAutoManageAction,
                    over: vec![ColumnId::RunId],
                },
                SchemaStep::CreateIndex {
                    index: IndexId::UpperAutoManageActionSubmissionId,
                    table: TableId::UpperAutoManageAction,
                    over: vec![ColumnId::SubmissionId],
                },
            ],
            Migration::BannedObservationCount => vec![
                SchemaStep::AddColumn {
                    table: TableId::UpperAutoManageRun,
                    plan: defaulted_column(
                        ColumnId::BannedObservationCount,
                        ColumnType::Integer,
                        ColumnDefault::Zero,
                    ),
                },
            ],
            Migration::VideoQueryIndexes => vec![
                SchemaStep::CreateIndex {
                    index: IndexId::VideoFavoriteIdId,
                    table: TableId::Video,
                    over: vec![ColumnId::FavoriteId, ColumnId::Id],
                },
                SchemaStep::CreateIndex {
                    index: IndexId::VideoSubmissionIdId,
                    table: TableId::Video,
                    over: vec![ColumnId::SubmissionId, ColumnId::Id],
                },
                SchemaStep::CreateIndex {
                    index: IndexId::VideoCollectionIdId,
                    table: TableId::Video,
                    over: vec![ColumnId::CollectionId, ColumnId::Id],
                },
                SchemaStep::CreateIndex {
                    index: IndexId::VideoWatchLaterIdId,
                    table: TableId::Video,
                    over: vec![ColumnId::WatchLaterId, ColumnId::Id],
                },
            ],
            Migration::RunStats => vec![
                SchemaStep::AddColumn {
                    table: TableId::UpperAutoManageRun,
                    plan: defaulted_column(
                        ColumnId::ActiveCount,
                        ColumnType::Integer,
                        ColumnDefault::Zero,
                    ),
                },
                SchemaStep::AddColumn {
                    table: TableId::UpperAutoManageRun,
                    plan: defaulted_column(
                        ColumnId::IndeterminateCount,
                        ColumnType::Integer,
                        ColumnDefault::Zero,
                    ),
                },
                SchemaStep::RenameColumn {
                    table: TableId::UpperAutoManageRun,
                    from: ColumnId::SkippedCount,
                    to: ColumnId::StillInactiveCount,
                },
            ],
            Migration::DownloadRuns => vec![
                SchemaStep::CreateTable {
                    table: TableId::DownloadRun,
                    columns: vec![
                        key_column(ColumnId::Id, true),
                        required_column(ColumnId::StartedAt, ColumnType::Timestamp),
                        optional_column(ColumnId::FinishedAt, ColumnType::Timestamp),
                        required_column(ColumnId::Status, ColumnType::Text),
                        required_column(ColumnId::Trigger, ColumnType::Text),
                        optional_column(ColumnId::ErrorMessage, ColumnType::Text),
                    ],
                    foreign_keys: Vec::new(),
                },
                SchemaStep::CreateIndex {
                    index: IndexId::DownloadRunStartedAt,
                    table: TableId::DownloadRun,
                    over: vec![ColumnId::StartedAt],
                },
            ],
        };
        assert(step_views(r@) =~~= self.up_steps());
        r
    }

    /// The steps back.
    pub fn down(self) -> (r: Vec<SchemaStep>)
        ensures
            step_views(r@) == self.down_steps(),
    {
        let r: Vec<SchemaStep> = match self {
            Migration::UpperAutoManage => vec![
                SchemaStep::DropTable { table: TableId::UpperAutoManageAction },
                SchemaStep::DropTable { table: TableId::UpperAutoManageRun },
                SchemaStep::DropTable { table: TableId::UpperAutoManagePolicy },
            ],
            Migration::BannedObservationCount => vec![
                SchemaStep::DropColumn {
                    table: TableId::UpperAutoManageRun,
                    column: ColumnId::BannedObservationCount,
                },
            ],
            Migration::VideoQueryIndexes => vec![
                SchemaStep::DropIndex { index: IndexId::VideoFavoriteIdId, table: TableId::Video },
                SchemaStep::DropIndex { index: IndexId::VideoSubmissionIdId, table: TableId::Video },
                SchemaStep::DropIndex { index: IndexId::VideoCollectionIdId, table: TableId::Video },
                SchemaStep::DropIndex { index: IndexId::VideoWatchLaterIdId, table: TableId::Video },
            ],
            Migration::RunStats => vec![
                SchemaStep::RenameColumn {
                    table: TableId::UpperAutoManageRun,
                    from: ColumnId::StillInactiveCount,
                    to: ColumnId::SkippedCount,
                },
                SchemaStep::DropColumn {
                    table: TableId::UpperAutoManageRun,
                    column: ColumnId::IndeterminateCount,
                },
                SchemaStep::DropColumn {
                    table: TableId::UpperAutoManageRun,
                    column: ColumnId::ActiveCount,
                },
            ],
            Migration::DownloadRuns => vec![
                SchemaStep::DropTable { table: TableId::DownloadRun },
            ],
        };
        assert(step_views(r@) =~~= self.down_steps());
        r
    }

    /// The name under which the database remembers that the steps were taken.
    pub fn name(self) -> (r: &'static str)
        ensures
            r@ == (match self {
                Migration::UpperAutoManage => "m20260811_000001_upper_auto_manage"@,
                Migration::BannedObservationCount => "m20260812_000001_add_banned_observation_count"@,
                Migration::VideoQueryIndexes => "m20260812_000002_add_video_query_indexes"@,
                Migration::RunStats => "m20260814_000001_refactor_upper_auto_manage_run_stats"@,
                Migration::DownloadRuns => "m20260814_000002_create_download_run"@,
            }),
    {
        match self {
            Migration::UpperAutoManage => "m20260811_000001_upper_auto_manage",
            Migration::BannedObservationCount => "m20260812_000001_add_banned_observation_count",
            Migration::VideoQueryIndexes => "m20260812_000002_add_video_query_indexes",
            Migration::RunStats => "m20260814_000001_refactor_upper_auto_manage_run_stats",
            Migration::DownloadRuns => "m20260814_000002_create_download_run",
        }
    }
}

/// The columns that a step brings.
pub open spec fn columns_brought(step: SchemaStep) -> Seq<ColumnPlan> {
    match step {
        SchemaStep::CreateTable { columns, .. } => columns@,
        SchemaStep::AddColumn { plan, .. } => seq![plan],
        _ => Seq::empty(),
    }
}

/// The column counts something.
pub open spec fn is_count(column: ColumnId) -> bool {
    ||| column is CheckedCount
    ||| column is DisabledCount
    ||| column is EnabledCount
    ||| column is BannedCount
    ||| column is SkippedCount
    ||| column is BannedObservationCount
    ||| column is ActiveCount
    ||| column is IndeterminateCount
    ||| column is StillInactiveCount
}

/// The column holds a moment.
pub open spec fn is_moment(column: ColumnId) -> bool {
    column is StartedAt || column is FinishedAt || column is UpdatedAt || column is CreatedAt
}

/// The column may be left empty.
pub open spec fn may_be_empty(column: ColumnId) -> bool {
    column is FinishedAt || column is Reason || column is ErrorMessage || column is Summary
}

/// Every column that a migration brings is one of its kind: counts are integers that start at zero,
/// moments are timestamps, ids are integers, everything else is text. Only the end of a run, a
/// reason, an error and a summary may be left empty. Only an id of its own counts up by itself, and
/// only it, or the submission that a policy is about, is a key. A policy is normal and automatic
/// where nothing is given, and dated now.
pub proof fn law_columns_are_of_their_kind(
    migration: Migration,
    steps: Vec<SchemaStep>,
    i: int,
    k: int,
)
    requires
        call_ensures(Migration::up, (migration,), steps),
        0 <= i < steps@.len(),
        0 <= k < columns_brought(steps@[i]).len(),
    ensures
        ({
            let plan = columns_brought(steps@[i])[k];
            let column = plan.column;
            &&& plan.column_type is Timestamp <==> is_moment(column)
            &&& plan.column_type is Integer <==> is_count(column) || column is Id
                || column is SubmissionId || column is RunId
            &&& plan.not_null <==> !may_be_empty(column)
            &&& plan.default is Zero <==> is_count(column)
            &&& plan.default is Normal <==> column is Policy
            &&& plan.default is Auto <==> column is Source
            &&& plan.default is CurrentTimestamp <==> column is UpdatedAt || column is CreatedAt
            &&& plan.auto_increment <==> column is Id
            &&& plan.primary_key <==> column is Id || (column is SubmissionId && k == 0)
            &&& plan.primary_key ==> k == 0
        }),
{
    let views = step_views(steps@);
    assert(views == migration.up_steps());
    assert(views.len() == steps@.len());
    assert(views[i] == steps@[i]@);
}

} // verus!
