//! The statements that bring a store to its declared structure.

use crate::schema::{
    create_sql, table_index, table_views, texts, ColumnView, DatabaseSchema, TableView,
};
use crate::schema_diff::{change_views, ChangeView, SchemaChange, SchemaDiff};
use vstd::prelude::*;

verus! {

/// One column of a table as the store has it.
#[derive(Debug, Clone)]
pub struct ColumnInfo {
    pub name: String,
    pub data_type: String,
    pub nullable: bool,
    pub default_value: Option<String>,
}

/// The columns of a table of the store, as they were read from it.
#[derive(Debug)]
pub struct ActualColumns {
    pub table: String,
    pub columns: Vec<ColumnInfo>,
}

/// Why a migration cannot be planned.
#[derive(Debug, PartialEq, Eq)]
pub enum MigrationError {
    /// A table is to be rebuilt that the schema does not declare.
    UnknownTable,
    /// A table is to be rebuilt whose columns in the store were not handed in.
    ColumnsMissing,
    /// A table is to be rebuilt that has no column in common with its declaration.
    NoCommonColumns,
}

/// What is to be done with a store when the gateway starts.
#[derive(Debug, Clone, Copy, PartialEq, Eq, Structural)]
pub enum InitAction {
    /// The store is empty: create every table and record the version.
    CreateFresh,
    /// The store is at the declared version or beyond: nothing to do.
    UpToDate,
    /// The store is older: compare, apply the changes, record the version.
    Migrate,
}

/// Decides what is to be done with a store when the gateway starts.
pub fn init_action(is_empty: bool, current_version: i64, expected_version: i64) -> (r: InitAction)
    ensures
        r == if is_empty {
            InitAction::CreateFresh
        } else if current_version >= expected_version {
            InitAction::UpToDate
        } else {
            InitAction::Migrate
        },
{
    if is_empty {
        InitAction::CreateFresh
    } else if current_version >= expected_version {
        InitAction::UpToDate
    } else {
        InitAction::Migrate
    }
}

/// The names of the columns of a table of the store, in order.
pub open spec fn info_names(columns: Seq<ColumnInfo>) -> Seq<Seq<char>> {
    Seq::new(columns.len(), |i: int| columns[i].name@)
}

/// Whether the declaration has a column named `name`.
pub open spec fn declares(columns: Seq<ColumnView>, name: Seq<char>) -> bool {
    exists|i: int| 0 <= i < columns.len() && (#[trigger] columns[i]).name == name
}

/// The columns whose content is kept when a table is rebuilt: those of the store that the
/// declaration has too, in the order of the store.
pub open spec fn kept_columns(actual: Seq<Seq<char>>, declared: Seq<ColumnView>) -> Seq<
    Seq<char>,
>
    decreases actual.len(),
{
    if actual.len() == 0 {
        Seq::empty()
    } else {
        let earlier = kept_columns(actual.drop_last(), declared);
        if declares(declared, actual.last()) {
            earlier.push(actual.last())
        } else {
            earlier
        }
    }
}

/// The statements that rebuild a table: the old table is set aside under a new name, the
/// table is created as declared, the content of the kept columns is copied, and the old
/// table is dropped.
pub open spec fn rebuild_sql(table: TableView, kept: Seq<Seq<char>>) -> Seq<Seq<char>> {
    let list = crate::schema::joined(kept, ", "@);
    Seq::empty().push("ALTER TABLE "@ + table.name + " RENAME TO "@ + table.name + "_old"@).push(
        create_sql(table),
    ).push(
        "INSERT INTO "@ + table.name + " ("@ + list + ") SELECT "@ + list + " FROM "@ + table.name
            + "_old"@,
    ).push("DROP TABLE "@ + table.name + "_old"@)
}

/// The statement that drops a table if it exists.
pub open spec fn drop_sql(name: Seq<char>) -> Seq<char> {
    "DROP TABLE IF EXISTS "@ + name
}

fn is_declared(table: &crate::schema::TableDefinition, name: &String) -> (r: bool)
    ensures
        r == declares(table@.columns, name@),
{
    let mut i: usize = 0;
    while i < table.columns.len()
        invariant
            i <= table.columns.len(),
            forall|j: int| 0 <= j < i ==> (#[trigger] table@.columns[j]).name != name@,
        decreases table.columns.len() - i,
    {
        if table.columns[i].name == *name {
            assert(table@.columns[i as int].name == name@);
            return true;
        }
        i += 1;
    }
    false
}

/// The statements that rebuild `table` in a store where it has the columns `actual`.
pub fn rebuild_statements(table: &crate::schema::TableDefinition, actual: &Vec<ColumnInfo>) -> (r:
    Result<Vec<String>, MigrationError>)
    ensures
        match r {
            Ok(statements) => kept_columns(info_names(actual@), table@.columns).len() > 0
                && texts(statements@) == rebuild_sql(
                table@,
                kept_columns(info_names(actual@), table@.columns),
            ),
            Err(e) => e == MigrationError::NoCommonColumns && kept_columns(
                info_names(actual@),
                table@.columns,
            ).len() == 0,
        },
{
    let ghost names = info_names(actual@);
    let mut keep: Vec<String> = Vec::new();
    let mut i: usize = 0;
    assert(names.take(0) =~= Seq::empty());
    assert(texts(keep@) =~= Seq::empty());
    while i < actual.len()
        invariant
            i <= actual.len(),
            names == info_names(actual@),
            texts(keep@) == kept_columns(names.take(i as int), table@.columns),
        decreases actual.len() - i,
    {
        let ghost before = texts(keep@);
        assert(names.take(i + 1).drop_last() =~= names.take(i as int));
        if is_declared(table, &actual[i].name) {
            keep.push(actual[i].name.clone());
            assert(texts(keep@) =~= before.push(actual@[i as int].name@));
        }
        i += 1;
    }
    assert(names.take(actual.len() as int) =~= names);
    if keep.len() == 0 {
        return Err(MigrationError::NoCommonColumns);
    }
    let list = crate::schema::join_strings(&keep, ", ");
    let name = table.name.as_str();
    let mut rename = String::from_str("ALTER TABLE ");
    rename.append(name);
    rename.append(" RENAME TO ");
    rename.append(name);
    rename.append("_old");
    let mut copy = String::from_str("INSERT INTO ");
    copy.append(name);
    copy.append(" (");
    copy.append(list.as_str());
    copy.append(") SELECT ");
    copy.append(list.as_str());
    copy.append(" FROM ");
    copy.append(name);
    copy.append("_old");
    let mut drop_old = String::from_str("DROP TABLE ");
    drop_old.append(name);
    drop_old.append("_old");
    let mut statements: Vec<String> = Vec::new();
    statements.push(rename);
    statements.push(table.to_create_sql());
    statements.push(copy);
    statements.push(drop_old);
    assert(texts(statements@) =~= rebuild_sql(table@, texts(keep@)));
    Ok(statements)
}

impl View for ActualColumns {
    type V = (Seq<char>, Seq<Seq<char>>);

    open spec fn view(&self) -> (Seq<char>, Seq<Seq<char>>) {
        (self.table@, info_names(self.columns@))
    }
}

/// The columns that were read, table by table.
pub open spec fn columns_views(columns: Seq<ActualColumns>) -> Seq<(Seq<char>, Seq<Seq<char>>)> {
    Seq::new(columns.len(), |i: int| columns[i]@)
}

/// The index of the first entry for the table named `name`.
pub open spec fn columns_index(columns: Seq<(Seq<char>, Seq<Seq<char>>)>, name: Seq<char>)
    -> Option<int>
    decreases columns.len(),
{
    if columns.len() == 0 {
        None
    } else {
        match columns_index(columns.drop_last(), name) {
            Some(i) => Some(i),
            None => if columns.last().0 == name {
                Some(columns.len() - 1)
            } else {
                None
            },
        }
    }
}

/// The statements that carry out one change.
pub open spec fn change_sql(
    change: ChangeView,
    expected: Seq<TableView>,
    columns: Seq<(Seq<char>, Seq<Seq<char>>)>,
) -> Result<Seq<Seq<char>>, MigrationError> {
    match change {
        ChangeView::Drop(name) => Ok(Seq::empty().push(drop_sql(name))),
        ChangeView::Create(table) => Ok(Seq::empty().push(create_sql(table))),
        ChangeView::Rebuild(name) => match table_index(expected, name) {
            None => Err(MigrationError::UnknownTable),
            Some(i) => match columns_index(columns, name) {
                None => Err(MigrationError::ColumnsMissing),
                Some(j) => {
                    let kept = kept_columns(columns[j].1, expected[i].columns);
                    if kept.len() == 0 {
                        Err(MigrationError::NoCommonColumns)
                    } else {
                        Ok(rebuild_sql(expected[i], kept))
                    }
                },
            },
        },
    }
}

/// The statements that carry out the changes in order; the first change that cannot be
/// planned fails the whole migration.
pub open spec fn migration_sql(
    changes: Seq<ChangeView>,
    expected: Seq<TableView>,
    columns: Seq<(Seq<char>, Seq<Seq<char>>)>,
) -> Result<Seq<Seq<char>>, MigrationError>
    decreases changes.len(),
{
    if changes.len() == 0 {
        Ok(Seq::empty())
    } else {
        match migration_sql(changes.drop_last(), expected, columns) {
            Err(e) => Err(e),
            Ok(earlier) => match change_sql(changes.last(), expected, columns) {
                Err(e) => Err(e),
                Ok(statements) => Ok(earlier + statements),
            },
        }
    }
}

fn find_columns(columns: &Vec<ActualColumns>, name: &String) -> (r: Option<usize>)
    ensures
        match r {
            Some(i) => i < columns.len() && columns_index(columns_views(columns@), name@) == Some(
                i as int,
            ),
            None => columns_index(columns_views(columns@), name@) is None,
        },
{
    let ghost all = columns_views(columns@);
    let mut found: Option<usize> = None;
    let mut i: usize = 0;
    assert(all.take(0) =~= Seq::empty());
    while i < columns.len()
        invariant
            i <= columns.len(),
            all == columns_views(columns@),
            match found {
                Some(f) => f < i && columns_index(all.take(i as int), name@) == Some(f as int),
                None => columns_index(all.take(i as int), name@) is None,
            },
        decreases columns.len() - i,
    {
        assert(all.take(i + 1).drop_last() =~= all.take(i as int));
        if found.is_none() && columns[i].table == *name {
            found = Some(i);
        }
        i += 1;
    }
    assert(all.take(columns.len() as int) =~= all);
    found
}

/// Plans migrations towards a declared schema.
#[derive(Debug)]
pub struct SchemaMigrator<'a> {
    pub expected_schema: &'a DatabaseSchema,
}

impl<'a> SchemaMigrator<'a> {
    /// A migrator towards the schema.
    pub fn new(expected_schema: &'a DatabaseSchema) -> (r: Self)
        ensures
            r.expected_schema == expected_schema,
    {
        SchemaMigrator { expected_schema }
    }

    /// The statements that carry out one change.
    pub fn change_statements(&self, change: &SchemaChange, columns: &Vec<ActualColumns>) -> (r:
        Result<Vec<String>, MigrationError>)
        ensures
            match r {
                Ok(statements) => change_sql(
                    change@,
                    table_views(self.expected_schema.tables@),
                    columns_views(columns@),
                ) == Ok::<Seq<Seq<char>>, MigrationError>(texts(statements@)),
                Err(e) => change_sql(
                    change@,
                    table_views(self.expected_schema.tables@),
                    columns_views(columns@),
                ) == Err::<Seq<Seq<char>>, MigrationError>(e),
            },
    {
        match change {
            SchemaChange::DropTable { name } => {
                let mut statements: Vec<String> = Vec::new();
                statements.push(String::from_str("DROP TABLE IF EXISTS ").concat(name.as_str()));
                assert(texts(statements@) =~= Seq::empty().push(drop_sql(name@)));
                Ok(statements)
            },
            SchemaChange::CreateTable { definition } => {
                let mut statements: Vec<String> = Vec::new();
                statements.push(definition.to_create_sql());
                assert(texts(statements@) =~= Seq::empty().push(create_sql(definition@)));
                Ok(statements)
            },
            SchemaChange::RebuildTable { name } => {
                let i = match self.expected_schema.find_table(name.as_str()) {
                    Some(i) => i,
                    None => {
                        return Err(MigrationError::UnknownTable);
                    },
                };
                let j = match find_columns(columns, name) {
                    Some(j) => j,
                    None => {
                        return Err(MigrationError::ColumnsMissing);
                    },
                };
                rebuild_statements(&self.expected_schema.tables[i], &columns[j].columns)
            },
        }
    }

    /// The statements that carry out the changes of `diff`, to be run in order in one
    /// transaction. `columns` holds the columns of each table that is to be rebuilt.
    pub fn apply(&self, diff: &SchemaDiff, columns: &Vec<ActualColumns>) -> (r: Result<
        Vec<String>,
        MigrationError,
    >)
        ensures
            match r {
                Ok(statements) => migration_sql(
                    change_views(diff.changes@),
                    table_views(self.expected_schema.tables@),
                    columns_views(columns@),
                ) == Ok::<Seq<Seq<char>>, MigrationError>(texts(statements@)),
                Err(e) => migration_sql(
                    change_views(diff.changes@),
                    table_views(self.expected_schema.tables@),
                    columns_views(columns@),
                ) == Err::<Seq<Seq<char>>, MigrationError>(e),
            },
    {
        let ghost changes = change_views(diff.changes@);
        let ghost want = table_views(self.expected_schema.tables@);
        let ghost have = columns_views(columns@);
        let mut out: Vec<String> = Vec::new();
        let mut i: usize = 0;
        assert(changes.take(0) =~= Seq::empty());
        assert(texts(out@) =~= Seq::empty());
        while i < diff.changes.len()
            invariant
                i <= diff.changes.len(),
                changes == change_views(diff.changes@),
                want == table_views(self.expected_schema.tables@),
                have == columns_views(columns@),
                migration_sql(changes.take(i as int), want, have) == Ok::<
                    Seq<Seq<char>>,
                    MigrationError,
                >(texts(out@)),
            decreases diff.changes.len() - i,
        {
            let ghost before = texts(out@);
            assert(changes.take(i + 1).drop_last() =~= changes.take(i as int));
            assert(changes.take(i + 1).last() == diff.changes@[i as int]@);
            match self.change_statements(&diff.changes[i], columns) {
                Ok(statements) => {
                    let mut statements = statements;
                    let ghost added = texts(statements@);
                    out.append(&mut statements);
                    assert(texts(out@) =~= before + added);
                },
                Err(e) => {
                    proof {
                        lemma_migration_fails(changes, want, have, i + 1);
                    }
                    return Err(e);
                },
            }
            i += 1;
        }
        assert(changes.take(diff.changes.len() as int) =~= changes);
        Ok(out)
    }
}

proof fn lemma_migration_fails(
    changes: Seq<ChangeView>,
    expected: Seq<TableView>,
    columns: Seq<(Seq<char>, Seq<Seq<char>>)>,
    n: int,
)
    requires
        0 <= n <= changes.len(),
        migration_sql(changes.take(n), expected, columns) is Err,
    ensures
        migration_sql(changes, expected, columns) == migration_sql(
            changes.take(n),
            expected,
            columns,
        ),
    decreases changes.len() - n,
{
    if n < changes.len() {
        assert(changes.take(n + 1).drop_last() =~= changes.take(n));
        lemma_migration_fails(changes, expected, columns, n + 1);
    } else {
        assert(changes.take(n) =~= changes);
    }
}

} // verus!
