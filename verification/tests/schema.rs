use ccg_gateway::schema::{join_strings, ColumnDefinition, DatabaseSchema, TableDefinition};
use ccg_gateway::schema_diff::{ActualTable, SchemaChange, SchemaDiff};
use ccg_gateway::schema_migrator::{
    init_action, rebuild_statements, ActualColumns, ColumnInfo, InitAction, MigrationError,
    SchemaMigrator,
};

fn column(name: &str, ty: &str, nullable: bool, default: Option<&str>) -> ColumnDefinition {
    ColumnDefinition {
        name: name.to_string(),
        data_type: ty.to_string(),
        nullable,
        default_value: default.map(|d| d.to_string()),
    }
}

fn info(name: &str) -> ColumnInfo {
    ColumnInfo {
        name: name.to_string(),
        data_type: "TEXT".to_string(),
        nullable: true,
        default_value: None,
    }
}

fn table() -> TableDefinition {
    TableDefinition {
        name: "t".to_string(),
        columns: vec![
            column("id", "INTEGER", false, None),
            column("name", "TEXT", false, Some("'x'")),
            column("note", "TEXT", true, None),
        ],
        primary_key: vec!["id".to_string()],
        unique_constraints: vec![vec!["name".to_string(), "note".to_string()]],
    }
}

fn names(schema: &DatabaseSchema) -> Vec<&str> {
    schema.tables.iter().map(|t| t.name.as_str()).collect()
}

#[test]
fn join_puts_the_separator_between_parts() {
    assert_eq!(join_strings(&vec![], ", "), "");
    assert_eq!(join_strings(&vec!["a".to_string()], ", "), "a");
    assert_eq!(join_strings(&vec!["a".to_string(), "b".to_string(), "c".to_string()], ", "), "a, b, c");
}

#[test]
fn create_sql_of_a_table() {
    assert_eq!(
        table().to_create_sql(),
        "CREATE TABLE IF NOT EXISTS t (\n    id INTEGER NOT NULL,\n    name TEXT NOT NULL DEFAULT 'x',\n    note TEXT,\n    PRIMARY KEY (id),\n    UNIQUE(name, note)\n)"
    );
}

#[test]
fn create_sql_without_key_and_constraints() {
    let t = TableDefinition {
        name: "bare".to_string(),
        columns: vec![column("a", "TEXT", true, None)],
        primary_key: vec![],
        unique_constraints: vec![],
    };
    assert_eq!(t.to_create_sql(), "CREATE TABLE IF NOT EXISTS bare (\n    a TEXT\n)");
}

#[test]
fn configuration_schema() {
    let s = DatabaseSchema::current();
    assert_eq!(s.version, 2);
    assert_eq!(
        names(&s),
        vec![
            "providers",
            "provider_model_map",
            "gateway_settings",
            "timeout_settings",
            "cli_settings",
            "mcp_configs",
            "prompt_presets",
            "webdav_settings",
        ]
    );
    let providers = &s.tables[0];
    let columns: Vec<&str> = providers.columns.iter().map(|c| c.name.as_str()).collect();
    assert_eq!(
        columns,
        vec![
            "id",
            "cli_type",
            "name",
            "base_url",
            "api_key",
            "enabled",
            "failure_threshold",
            "blacklist_minutes",
            "consecutive_failures",
            "blacklisted_until",
            "sort_order",
            "created_at",
            "updated_at",
        ]
    );
    assert_eq!(providers.unique_constraints, vec![vec!["cli_type".to_string(), "name".to_string()]]);
    assert_eq!(providers.columns[6].default_value, Some("3".to_string()));
    assert_eq!(providers.columns[7].default_value, Some("10".to_string()));
    assert!(providers.columns[9].nullable);
    assert_eq!(
        s.tables[1].unique_constraints,
        vec![vec!["provider_id".to_string(), "source_model".to_string()]]
    );
    assert_eq!(s.tables[4].primary_key, vec!["cli_type".to_string()]);
}

#[test]
fn telemetry_schema() {
    let s = DatabaseSchema::log_schema();
    assert_eq!(s.version, 1);
    assert_eq!(names(&s), vec!["request_logs", "system_logs", "usage_daily"]);
    assert_eq!(s.tables[0].columns.len(), 21);
    assert_eq!(s.tables[1].columns.len(), 7);
    assert_eq!(
        s.tables[2].primary_key,
        vec!["usage_date".to_string(), "provider_name".to_string(), "cli_type".to_string()]
    );
}

#[test]
fn every_declared_table_has_its_key_among_its_columns() {
    for schema in [DatabaseSchema::current(), DatabaseSchema::log_schema()] {
        for t in &schema.tables {
            assert!(!t.primary_key.is_empty());
            for k in &t.primary_key {
                assert!(t.columns.iter().any(|c| &c.name == k));
            }
            for u in &t.unique_constraints {
                for k in u {
                    assert!(t.columns.iter().any(|c| &c.name == k));
                }
            }
        }
    }
}

#[test]
fn create_all_sql_gives_one_statement_for_each_table() {
    let s = DatabaseSchema::log_schema();
    let all = s.to_create_all_sql();
    assert_eq!(all.len(), 3);
    assert!(all[0].starts_with("CREATE TABLE IF NOT EXISTS request_logs (\n    id INTEGER NOT NULL,"));
    assert!(all[2].ends_with(
        "output_tokens INTEGER NOT NULL DEFAULT 0,\n    PRIMARY KEY (usage_date, provider_name, cli_type)\n)"
    ));
    assert_eq!(DatabaseSchema::define_main_tables().len(), 8);
    assert_eq!(DatabaseSchema::define_log_tables().len(), 3);
}

#[test]
fn find_table_by_name() {
    let s = DatabaseSchema::current();
    assert_eq!(s.find_table("providers"), Some(0));
    assert_eq!(s.find_table("webdav_settings"), Some(7));
    assert_eq!(s.find_table("request_logs"), None);
    assert_eq!(s.find_table("Providers"), None);
}

#[test]
fn normalize_sql_drops_quotes_and_squeezes_space() {
    assert_eq!(
        SchemaDiff::normalize_sql("CREATE TABLE IF NOT EXISTS \"t\" (\n    id   INTEGER\t)\n"),
        "CREATE TABLE t ( id INTEGER )"
    );
    assert_eq!(SchemaDiff::normalize_sql(""), "");
    assert_eq!(SchemaDiff::normalize_sql("  \n "), "");
    assert_eq!(SchemaDiff::normalize_sql("a"), "a");
}

#[test]
fn structure_differs_ignores_case_quotes_and_space() {
    let declared = table().to_create_sql();
    let stored = "create table \"t\" (id integer not null, name text not null default 'x', note text, primary key (id), unique(name, note))";
    assert!(SchemaDiff::table_structure_differs(&declared, stored));
    let stored_same = "CREATE TABLE t (\n id INTEGER NOT NULL,\n name TEXT NOT NULL DEFAULT 'x',\n note TEXT,\n PRIMARY KEY (id),\n UNIQUE(name, note)\n)";
    assert!(!SchemaDiff::table_structure_differs(&declared, stored_same));
    let lowered = declared.replace("IF NOT EXISTS ", "").to_lowercase();
    assert!(!SchemaDiff::table_structure_differs(&declared, &lowered));
    assert!(SchemaDiff::table_structure_differs(&declared, &declared.to_lowercase()));
    assert!(SchemaDiff::table_structure_differs(&declared, "CREATE TABLE t (id INTEGER)"));
}

#[test]
fn diff_of_a_store_that_matches_is_empty() {
    let schema = DatabaseSchema::log_schema();
    let actual: Vec<ActualTable> = schema
        .tables
        .iter()
        .map(|t| ActualTable { name: t.name.clone(), sql: Some(t.to_create_sql()) })
        .collect();
    let diff = SchemaDiff::compare_async(&schema, &actual);
    assert!(!diff.has_changes());
    assert_eq!(diff.change_count(), 0);
}

#[test]
fn diff_lists_drops_then_creations_and_rebuilds() {
    let schema = DatabaseSchema::log_schema();
    let actual = vec![
        ActualTable { name: "old_one".to_string(), sql: Some("CREATE TABLE old_one (a)".to_string()) },
        ActualTable {
            name: "system_logs".to_string(),
            sql: Some("CREATE TABLE system_logs (id INTEGER)".to_string()),
        },
        ActualTable { name: "usage_daily".to_string(), sql: None },
    ];
    let diff = SchemaDiff::compare_async(&schema, &actual);
    assert!(diff.has_changes());
    assert_eq!(diff.change_count(), 3);
    assert!(matches!(&diff.changes[0], SchemaChange::DropTable { name } if name == "old_one"));
    assert!(
        matches!(&diff.changes[1], SchemaChange::CreateTable { definition } if definition.name == "request_logs")
    );
    assert!(matches!(&diff.changes[2], SchemaChange::RebuildTable { name } if name == "system_logs"));
}

#[test]
fn init_action_by_state_and_version() {
    assert_eq!(init_action(true, 0, 2), InitAction::CreateFresh);
    assert_eq!(init_action(true, 5, 2), InitAction::CreateFresh);
    assert_eq!(init_action(false, 2, 2), InitAction::UpToDate);
    assert_eq!(init_action(false, 3, 2), InitAction::UpToDate);
    assert_eq!(init_action(false, 1, 2), InitAction::Migrate);
    assert_eq!(init_action(false, 0, 1), InitAction::Migrate);
}

#[test]
fn rebuild_copies_the_columns_that_both_have() {
    let statements =
        rebuild_statements(&table(), &vec![info("legacy"), info("note"), info("id")]).unwrap();
    assert_eq!(statements.len(), 4);
    assert_eq!(statements[0], "ALTER TABLE t RENAME TO t_old");
    assert_eq!(statements[1], table().to_create_sql());
    assert_eq!(statements[2], "INSERT INTO t (note, id) SELECT note, id FROM t_old");
    assert_eq!(statements[3], "DROP TABLE t_old");
}

#[test]
fn rebuild_without_common_columns_fails() {
    assert_eq!(
        rebuild_statements(&table(), &vec![info("legacy")]).unwrap_err(),
        MigrationError::NoCommonColumns
    );
    assert_eq!(rebuild_statements(&table(), &vec![]).unwrap_err(), MigrationError::NoCommonColumns);
}

#[test]
fn migration_plan_in_order() {
    let schema = DatabaseSchema { version: 3, tables: vec![table()] };
    let migrator = SchemaMigrator::new(&schema);
    let diff = SchemaDiff {
        changes: vec![
            SchemaChange::DropTable { name: "gone".to_string() },
            SchemaChange::CreateTable { definition: table() },
            SchemaChange::RebuildTable { name: "t".to_string() },
        ],
    };
    let columns = vec![ActualColumns { table: "t".to_string(), columns: vec![info("id")] }];
    let plan = migrator.apply(&diff, &columns).unwrap();
    assert_eq!(plan.len(), 6);
    assert_eq!(plan[0], "DROP TABLE IF EXISTS gone");
    assert_eq!(plan[1], table().to_create_sql());
    assert_eq!(plan[2], "ALTER TABLE t RENAME TO t_old");
    assert_eq!(plan[4], "INSERT INTO t (id) SELECT id FROM t_old");
    assert_eq!(plan[5], "DROP TABLE t_old");
    assert_eq!(migrator.apply(&SchemaDiff { changes: vec![] }, &vec![]).unwrap().len(), 0);
}

#[test]
fn migration_plan_fails_as_a_whole() {
    let schema = DatabaseSchema { version: 3, tables: vec![table()] };
    let migrator = SchemaMigrator::new(&schema);
    let unknown = SchemaDiff {
        changes: vec![
            SchemaChange::DropTable { name: "gone".to_string() },
            SchemaChange::RebuildTable { name: "nope".to_string() },
        ],
    };
    assert_eq!(migrator.apply(&unknown, &vec![]).unwrap_err(), MigrationError::UnknownTable);
    let missing = SchemaDiff { changes: vec![SchemaChange::RebuildTable { name: "t".to_string() }] };
    assert_eq!(migrator.apply(&missing, &vec![]).unwrap_err(), MigrationError::ColumnsMissing);
    let columns = vec![ActualColumns { table: "t".to_string(), columns: vec![info("zzz")] }];
    assert_eq!(migrator.apply(&missing, &columns).unwrap_err(), MigrationError::NoCommonColumns);
}
