//! What the steps of [`crate::migration`] do to a database, and that the steps back undo it.
use vstd::prelude::*;

verus! {

use crate::migration::{
    ColumnId, ColumnPlan, ForeignKeyPlan, IndexId, Migration, StepView, TableId,
};

/// A table: its columns and what they refer to.
#[verifier::ext_equal]
pub struct TableModel {
    pub columns: Seq<ColumnPlan>,
    pub foreign_keys: Seq<ForeignKeyPlan>,
}

/// An index: its table and the columns that it is over.
#[verifier::ext_equal]
pub struct IndexModel {
    pub table: TableId,
    pub over: Seq<ColumnId>,
}

/// The form of a database.
#[verifier::ext_equal]
pub struct Schema {
    pub tables: Map<TableId, TableModel>,
    pub indexes: Map<IndexId, IndexModel>,
}

impl Schema {
    /// Every index is over a table that is there.
    pub open spec fn wf(self) -> bool {
        forall|index: IndexId| #[trigger]
            self.indexes.contains_key(index) ==> self.tables.contains_key(
                self.indexes[index].table,
            )
    }

    /// The table is there and has a column of this name.
    pub open spec fn has_column(self, table: TableId, column: ColumnId) -> bool {
        self.tables.contains_key(table) && named(self.tables[table].columns, column)
    }
}

/// One of the columns has this name.
pub open spec fn named(columns: Seq<ColumnPlan>, column: ColumnId) -> bool {
    exists|i: int| 0 <= i < columns.len() && (#[trigger] columns[i]).column == column
}

/// The columns but those of this name.
pub open spec fn without(columns: Seq<ColumnPlan>, column: ColumnId) -> Seq<ColumnPlan> {
    columns.filter_map(
        |plan: ColumnPlan|
            if plan.column == column {
                None
            } else {
                Some(plan)
            },
    )
}

/// The columns with another name in place of one.
pub open spec fn renamed(columns: Seq<ColumnPlan>, from: ColumnId, to: ColumnId) -> Seq<
    ColumnPlan,
> {
    columns.map_values(
        |plan: ColumnPlan|
            if plan.column == from {
                ColumnPlan { column: to, ..plan }
            } else {
                plan
            },
    )
}

/// What a step does to a database. On a table that is not there it does nothing.
pub open spec fn applied(schema: Schema, step: StepView) -> Schema {
    match step {
        StepView::CreateTable { table, columns, foreign_keys } => if schema.tables.contains_key(
            table,
        ) {
            schema
        } else {
            Schema {
                tables: schema.tables.insert(table, TableModel { columns, foreign_keys }),
                ..schema
            }
        },
        StepView::DropTable { table } => Schema {
            tables: schema.tables.remove(table),
            indexes: schema.indexes.remove_keys(
                Set::new(
                    |index: IndexId|
                        schema.indexes.contains_key(index) && schema.indexes[index].table == table,
                ),
            ),
        },
        StepView::CreateIndex { index, table, over } => Schema {
            indexes: schema.indexes.insert(index, IndexModel { table, over }),
            ..schema
        },
        StepView::DropIndex { index, table } => Schema {
            indexes: schema.indexes.remove(index),
            ..schema
        },
        StepView::AddColumn { table, plan } => changed(
            schema,
            table,
            |columns: Seq<ColumnPlan>| columns.push(plan),
        ),
        StepView::DropColumn { table, column } => changed(
            schema,
            table,
            |columns: Seq<ColumnPlan>| without(columns, column),
        ),
        StepView::RenameColumn { table, from, to } => changed(
            schema,
            table,
            |columns: Seq<ColumnPlan>| renamed(columns, from, to),
        ),
    }
}

/// A database with the columns of a table changed, where the table is there.
pub open spec fn changed(
    schema: Schema,
    table: TableId,
    change: spec_fn(Seq<ColumnPlan>) -> Seq<ColumnPlan>,
) -> Schema {
    if schema.tables.contains_key(table) {
        let before = schema.tables[table];
        Schema {
            tables: schema.tables.insert(
                table,
                TableModel { columns: change(before.columns), ..before },
            ),
            ..schema
        }
    } else {
        schema
    }
}

/// What several steps do to a database, one after another.
pub open spec fn migrated(schema: Schema, steps: Seq<StepView>) -> Schema
    decreases steps.len(),
{
    if steps.len() == 0 {
        schema
    } else {
        applied(migrated(schema, steps.drop_last()), steps.last())
    }
}

/// The database is one that the steps are meant for: what they create is not there, and what
/// they change or index is.
pub open spec fn awaits(schema: Schema, migration: Migration) -> bool {
    match migration {
        Migration::UpperAutoManage => {
            &&& !schema.tables.contains_key(TableId::UpperAutoManagePolicy)
            &&& !schema.tables.contains_key(TableId::UpperAutoManageRun)
            &&& !schema.tables.contains_key(TableId::UpperAutoManageAction)
            &&& !schema.indexes.contains_key(IndexId::UpperAutoManageRunStartedAt)
            &&& !schema.indexes.contains_key(IndexId::UpperAutoManageActionRunId)
            &&& !schema.indexes.contains_key(IndexId::UpperAutoManageActionSubmissionId)
        },
        Migration::BannedObservationCount => {
            &&& schema.tables.contains_key(TableId::UpperAutoManageRun)
            &&& !schema.has_column(TableId::UpperAutoManageRun, ColumnId::BannedObservationCount)
        },
        Migration::VideoQueryIndexes => {
            &&& schema.has_column(TableId::Video, ColumnId::Id)
            &&& schema.has_column(TableId::Video, ColumnId::FavoriteId)
            &&& schema.has_column(TableId::Video, ColumnId::SubmissionId)
            &&& schema.has_column(TableId::Video, ColumnId::CollectionId)
            &&& schema.has_column(TableId::Video, ColumnId::WatchLaterId)
            &&& !schema.indexes.contains_key(IndexId::VideoFavoriteIdId)
            &&& !schema.indexes.contains_key(IndexId::VideoSubmissionIdId)
            &&& !schema.indexes.contains_key(IndexId::VideoCollectionIdId)
            &&& !schema.indexes.contains_key(IndexId::VideoWatchLaterIdId)
        },
        Migration::RunStats => {
            &&& schema.has_column(TableId::UpperAutoManageRun, ColumnId::SkippedCount)
            &&& !schema.has_column(TableId::UpperAutoManageRun, ColumnId::ActiveCount)
            &&& !schema.has_column(TableId::UpperAutoManageRun, ColumnId::IndeterminateCount)
            &&& !schema.has_column(TableId::UpperAutoManageRun, ColumnId::StillInactiveCount)
        },
        Migration::DownloadRuns => {
            &&& !schema.tables.contains_key(TableId::DownloadRun)
            &&& !schema.indexes.contains_key(IndexId::DownloadRunStartedAt)
        },
    }
}

proof fn lemma_without_missing(columns: Seq<ColumnPlan>, column: ColumnId)
    requires
        !named(columns, column),
    ensures
        without(columns, column) == columns,
    decreases columns.len(),
{
    if columns.len() > 0 {
        let rest = columns.drop_last();
        assert(!named(rest, column)) by {
            if named(rest, column) {
                let i = choose|i: int| 0 <= i < rest.len() && (#[trigger] rest[i]).column == column;
                assert(columns[i] == rest[i]);
            }
        }
        lemma_without_missing(rest, column);
        assert(columns.last() == columns[columns.len() - 1]);
        assert(without(columns, column) =~= rest.push(columns.last()));
        assert(rest.push(columns.last()) =~= columns);
    } else {
        assert(without(columns, column) =~= columns);
    }
}

proof fn lemma_drop_undoes_add(columns: Seq<ColumnPlan>, plan: ColumnPlan)
    requires
        !named(columns, plan.column),
    ensures
        without(columns.push(plan), plan.column) == columns,
{
    lemma_without_missing(columns, plan.column);
    assert(columns.push(plan).drop_last() =~= columns);
}

proof fn lemma_rename_back(columns: Seq<ColumnPlan>, from: ColumnId, to: ColumnId)
    requires
        !named(columns, to),
    ensures
        renamed(renamed(columns, from, to), to, from) == columns,
{
    let there = renamed(columns, from, to);
    let back = renamed(there, to, from);
    assert forall|i: int| 0 <= i < columns.len() implies #[trigger] back[i] == columns[i] by {
        assert(columns[i].column != to);
    }
    assert(back =~= columns);
}

/// The steps back undo the steps: they leave the database as it was, with every table, column
/// and index that was there before.
pub proof fn law_down_undoes_up(schema: Schema, migration: Migration)
    requires
        schema.wf(),
        awaits(schema, migration),
    ensures
        migrated(migrated(schema, migration.up_steps()), migration.down_steps()) == schema,
{
    reveal_with_fuel(migrated, 8);
    let up = migration.up_steps();
    let down = migration.down_steps();
    let after = migrated(schema, up);
    let back = migrated(after, down);
    match migration {
        Migration::UpperAutoManage => {
            assert(back.tables =~= schema.tables);
            assert(back.indexes =~= schema.indexes);
        },
        Migration::DownloadRuns => {
            assert(back.tables =~= schema.tables);
            assert(back.indexes =~= schema.indexes);
        },
        Migration::VideoQueryIndexes => {
            assert(back.indexes =~= schema.indexes);
        },
        Migration::BannedObservationCount => {
            let columns = schema.tables[TableId::UpperAutoManageRun].columns;
            lemma_drop_undoes_add(columns, up[0]->plan);
            assert(back.tables =~= schema.tables);
        },
        Migration::RunStats => {
            let c0 = schema.tables[TableId::UpperAutoManageRun].columns;
            let active = up[0]->plan;
            let indeterminate = up[1]->plan;
            let c1 = c0.push(active);
            let c2 = c1.push(indeterminate);
            assert(!named(c1, ColumnId::IndeterminateCount)) by {
                assert(forall|i: int| 0 <= i < c0.len() ==> c1[i] == #[trigger] c0[i]);
            }
            assert(!named(c2, ColumnId::StillInactiveCount)) by {
                assert(forall|i: int| 0 <= i < c0.len() ==> c2[i] == #[trigger] c0[i]);
            }
            lemma_rename_back(c2, ColumnId::SkippedCount, ColumnId::StillInactiveCount);
            lemma_drop_undoes_add(c1, indeterminate);
            lemma_drop_undoes_add(c0, active);
            assert(back.tables =~= schema.tables);
        },
    }
}

/// The names of columns.
pub open spec fn column_names(columns: Seq<ColumnPlan>) -> Seq<ColumnId> {
    columns.map_values(|plan: ColumnPlan| plan.column)
}

/// The steps that concern the table of the runs follow one another: each leaves a database that
/// the next ones are meant for.
pub proof fn law_run_table_steps_follow_one_another(schema: Schema)
    requires
        awaits(schema, Migration::UpperAutoManage),
    ensures
        ({
            let first = migrated(schema, Migration::UpperAutoManage.up_steps());
            let second = migrated(first, Migration::BannedObservationCount.up_steps());
            awaits(first, Migration::BannedObservationCount) && awaits(
                second,
                Migration::RunStats,
            )
        }),
{
    reveal_with_fuel(migrated, 8);
    let first = migrated(schema, Migration::UpperAutoManage.up_steps());
    let second = migrated(first, Migration::BannedObservationCount.up_steps());
    assert(first.tables.contains_key(TableId::UpperAutoManageRun));
    assert(second.tables[TableId::UpperAutoManageRun].columns[8].column == ColumnId::SkippedCount);
}

/// After all the steps that concern it, the table of the runs has a column for each count that a
/// run reports, and none besides for counts that are no longer taken.
pub proof fn law_run_table_has_every_count(schema: Schema)
    requires
        awaits(schema, Migration::UpperAutoManage),
    ensures
        ({
            let first = migrated(schema, Migration::UpperAutoManage.up_steps());
            let second = migrated(first, Migration::BannedObservationCount.up_steps());
            let third = migrated(second, Migration::RunStats.up_steps());
            &&& third.tables.contains_key(TableId::UpperAutoManageRun)
            &&& column_names(third.tables[TableId::UpperAutoManageRun].columns) == seq![
                ColumnId::Id,
                ColumnId::StartedAt,
                ColumnId::FinishedAt,
                ColumnId::Status,
                ColumnId::CheckedCount,
                ColumnId::DisabledCount,
                ColumnId::EnabledCount,
                ColumnId::BannedCount,
                ColumnId::StillInactiveCount,
                ColumnId::ErrorMessage,
                ColumnId::Summary,
                ColumnId::BannedObservationCount,
                ColumnId::ActiveCount,
                ColumnId::IndeterminateCount,
            ]
        }),
{
    reveal_with_fuel(migrated, 8);
}

/// A newly added count is zero in the rows that are there already.
pub proof fn law_new_counts_start_at_zero(migration: Migration, i: int)
    requires
        0 <= i < migration.up_steps().len(),
    ensures
        migration.up_steps()[i] matches StepView::AddColumn { plan, .. } ==> plan.not_null
            && plan.default == crate::migration::ColumnDefault::Zero,
{
}

} // verus!
