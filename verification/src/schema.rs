//! The declared structure of a store: columns, tables, and the statements that create them.

use crate::tables::{define_log_tables, define_main_tables, log_tables, main_tables};
use crate::text::{copy_opt, opt_view};
use vstd::prelude::*;

verus! {

/// One column of a table as the schema declares it.
#[derive(Debug, Clone)]
pub struct ColumnDefinition {
    pub name: String,
    pub data_type: String,
    pub nullable: bool,
    pub default_value: Option<String>,
}

/// One table as the schema declares it.
#[derive(Debug, Clone)]
pub struct TableDefinition {
    pub name: String,
    pub columns: Vec<ColumnDefinition>,
    pub primary_key: Vec<String>,
    pub unique_constraints: Vec<Vec<String>>,
}

/// A column as contracts see it.
pub struct ColumnView {
    pub name: Seq<char>,
    pub data_type: Seq<char>,
    pub nullable: bool,
    pub default_value: Option<Seq<char>>,
}

/// A table as contracts see it.
pub struct TableView {
    pub name: Seq<char>,
    pub columns: Seq<ColumnView>,
    pub primary_key: Seq<Seq<char>>,
    pub unique_constraints: Seq<Seq<Seq<char>>>,
}

impl View for ColumnDefinition {
    type V = ColumnView;

    open spec fn view(&self) -> ColumnView {
        ColumnView {
            name: self.name@,
            data_type: self.data_type@,
            nullable: self.nullable,
            default_value: opt_view(self.default_value),
        }
    }
}

/// The texts of a list of strings, in order.
pub open spec fn texts(v: Seq<String>) -> Seq<Seq<char>> {
    Seq::new(v.len(), |i: int| v[i]@)
}

/// The texts of a list of lists of strings.
pub open spec fn text_lists(v: Seq<Vec<String>>) -> Seq<Seq<Seq<char>>> {
    Seq::new(v.len(), |i: int| texts(v[i]@))
}

/// The columns of a list, in order.
pub open spec fn column_views(v: Seq<ColumnDefinition>) -> Seq<ColumnView> {
    Seq::new(v.len(), |i: int| v[i]@)
}

impl View for TableDefinition {
    type V = TableView;

    open spec fn view(&self) -> TableView {
        TableView {
            name: self.name@,
            columns: column_views(self.columns@),
            primary_key: texts(self.primary_key@),
            unique_constraints: text_lists(self.unique_constraints@),
        }
    }
}

/// The tables of a list, in order.
pub open spec fn table_views(v: Seq<TableDefinition>) -> Seq<TableView> {
    Seq::new(v.len(), |i: int| v[i]@)
}

/// The parts in a row, with `sep` between each two.
pub open spec fn joined(parts: Seq<Seq<char>>, sep: Seq<char>) -> Seq<char>
    decreases parts.len(),
{
    if parts.len() == 0 {
        Seq::empty()
    } else if parts.len() == 1 {
        parts[0]
    } else {
        joined(parts.drop_last(), sep) + sep + parts.last()
    }
}

/// The parts in a row, with `sep` between each two.
pub fn join_strings(parts: &Vec<String>, sep: &str) -> (r: String)
    ensures
        r@ == joined(texts(parts@), sep@),
{
    let mut out = String::new();
    let mut i: usize = 0;
    assert(texts(parts@).take(0) =~= Seq::empty());
    while i < parts.len()
        invariant
            i <= parts.len(),
            out@ == joined(texts(parts@).take(i as int), sep@),
        decreases parts.len() - i,
    {
        proof {
            let longer = texts(parts@).take(i + 1);
            assert(longer.drop_last() =~= texts(parts@).take(i as int));
            assert(longer.last() == parts@[i as int]@);
            if i == 0 {
                assert(out@ + parts@[0]@ =~= parts@[0]@);
            }
        }
        if i > 0 {
            out.append(sep);
        }
        out.append(parts[i].as_str());
        i += 1;
    }
    assert(texts(parts@).take(parts.len() as int) =~= texts(parts@));
    out
}

/// The line that declares a column: name and type, then `NOT NULL` where the column is not
/// nullable, then the default where it has one.
pub open spec fn column_sql(c: ColumnView) -> Seq<char> {
    "    "@ + c.name + " "@ + c.data_type + (if c.nullable {
        Seq::empty()
    } else {
        " NOT NULL"@
    }) + (match c.default_value {
        Some(d) => " DEFAULT "@ + d,
        None => Seq::empty(),
    })
}

/// The lines that declare the columns.
pub open spec fn column_lines(columns: Seq<ColumnView>) -> Seq<Seq<char>> {
    Seq::new(columns.len(), |i: int| column_sql(columns[i]))
}

/// The clause of the primary key; nothing where the table has none.
pub open spec fn primary_key_sql(key: Seq<Seq<char>>) -> Seq<char> {
    if key.len() == 0 {
        Seq::empty()
    } else {
        ",\n    PRIMARY KEY ("@ + joined(key, ", "@) + ")"@
    }
}

/// The clauses of the unique constraints, in order.
pub open spec fn unique_sql(constraints: Seq<Seq<Seq<char>>>) -> Seq<char>
    decreases constraints.len(),
{
    if constraints.len() == 0 {
        Seq::empty()
    } else {
        unique_sql(constraints.drop_last()) + ",\n    UNIQUE("@ + joined(
            constraints.last(),
            ", "@,
        ) + ")"@
    }
}

/// The statement that creates a table if it does not exist.
pub open spec fn create_sql(t: TableView) -> Seq<char> {
    "CREATE TABLE IF NOT EXISTS "@ + t.name + " (\n"@ + joined(column_lines(t.columns), ",\n"@)
        + primary_key_sql(t.primary_key) + unique_sql(t.unique_constraints) + "\n)"@
}

impl ColumnDefinition {
    /// The line that declares the column.
    pub fn to_sql(&self) -> (r: String)
        ensures
            r@ == column_sql(self@),
    {
        let mut out = String::from_str("    ");
        out.append(self.name.as_str());
        out.append(" ");
        out.append(self.data_type.as_str());
        if !self.nullable {
            out.append(" NOT NULL");
        } else {
            assert(out@ + Seq::<char>::empty() =~= out@);
        }
        match &self.default_value {
            Some(d) => {
                let ghost before = out@;
                out.append(" DEFAULT ");
                out.append(d.as_str());
                assert(out@ =~= before + (" DEFAULT "@ + d@));
            },
            None => {
                assert(out@ + Seq::<char>::empty() =~= out@);
            },
        }
        out
    }
}

impl TableDefinition {
    /// The statement that creates the table if it does not exist.
    pub fn to_create_sql(&self) -> (r: String)
        ensures
            r@ == create_sql(self@),
    {
        let mut lines: Vec<String> = Vec::new();
        let mut i: usize = 0;
        while i < self.columns.len()
            invariant
                i <= self.columns.len(),
                texts(lines@) == column_lines(self@.columns).take(i as int),
            decreases self.columns.len() - i,
        {
            let ghost before = texts(lines@);
            lines.push(self.columns[i].to_sql());
            i += 1;
            assert(texts(lines@) =~= before.push(column_sql(self.columns@[i - 1]@)));
            assert(texts(lines@) =~= column_lines(self@.columns).take(i as int));
        }
        assert(column_lines(self@.columns).take(self.columns.len() as int) =~= column_lines(
            self@.columns,
        ));
        let mut sql = String::from_str("CREATE TABLE IF NOT EXISTS ");
        sql.append(self.name.as_str());
        sql.append(" (\n");
        sql.append(join_strings(&lines, ",\n").as_str());
        let ghost head = sql@;
        if self.primary_key.len() > 0 {
            sql.append(",\n    PRIMARY KEY (");
            sql.append(join_strings(&self.primary_key, ", ").as_str());
            sql.append(")");
            assert(sql@ =~= head + primary_key_sql(self@.primary_key));
        } else {
            assert(sql@ =~= head + primary_key_sql(self@.primary_key));
        }
        let ghost with_key = sql@;
        let mut k: usize = 0;
        assert(self@.unique_constraints.take(0) =~= Seq::empty());
        assert(with_key + Seq::<char>::empty() =~= with_key);
        while k < self.unique_constraints.len()
            invariant
                k <= self.unique_constraints.len(),
                sql@ == with_key + unique_sql(self@.unique_constraints.take(k as int)),
            decreases self.unique_constraints.len() - k,
        {
            let ghost longer = self@.unique_constraints.take(k + 1);
            proof {
                assert(longer.drop_last() =~= self@.unique_constraints.take(k as int));
                assert(longer.last() == texts(self.unique_constraints@[k as int]@));
            }
            sql.append(",\n    UNIQUE(");
            sql.append(join_strings(&self.unique_constraints[k], ", ").as_str());
            sql.append(")");
            k += 1;
            assert(sql@ =~= with_key + unique_sql(longer));
        }
        assert(self@.unique_constraints.take(self.unique_constraints.len() as int)
            =~= self@.unique_constraints);
        sql.append("\n)");
        assert(sql@ =~= create_sql(self@));
        sql
    }
}

/// The tables that a store is to have, and the version of that set.
#[derive(Debug, Clone)]
pub struct DatabaseSchema {
    pub version: i64,
    pub tables: Vec<TableDefinition>,
}

/// The statements that create the tables, in order.
pub open spec fn create_all_sql(tables: Seq<TableView>) -> Seq<Seq<char>> {
    Seq::new(tables.len(), |i: int| create_sql(tables[i]))
}

/// Whether no two of the tables have one name.
pub open spec fn names_distinct(tables: Seq<TableView>) -> bool {
    forall|i: int, j: int|
        0 <= i < j < tables.len() ==> (#[trigger] tables[i]).name != (#[trigger] tables[j]).name
}

/// The index of the table named `name`.
pub open spec fn table_index(tables: Seq<TableView>, name: Seq<char>) -> Option<int>
    decreases tables.len(),
{
    if tables.len() == 0 {
        None
    } else {
        match table_index(tables.drop_last(), name) {
            Some(i) => Some(i),
            None => if tables.last().name == name {
                Some(tables.len() - 1)
            } else {
                None
            },
        }
    }
}

/// No two tables of the configuration store have one name, and none of the telemetry store.
pub proof fn lemma_declared_names_distinct()
    ensures
        names_distinct(main_tables()),
        names_distinct(log_tables()),
{
    reveal_strlit("providers");
    reveal_strlit("provider_model_map");
    reveal_strlit("gateway_settings");
    reveal_strlit("timeout_settings");
    reveal_strlit("cli_settings");
    reveal_strlit("mcp_configs");
    reveal_strlit("prompt_presets");
    reveal_strlit("webdav_settings");
    reveal_strlit("request_logs");
    reveal_strlit("system_logs");
    reveal_strlit("usage_daily");
    let m = main_tables();
    assert(m[2].name[0] != m[3].name[0]);
    assert(m[2].name[0] != m[7].name[0]);
    assert(m[3].name[0] != m[7].name[0]);
    assert(m[4].name[0] != m[5].name[0]);
    assert(m[0].name[0] != m[1].name[0] || m[0].name.len() != m[1].name.len());
    let l = log_tables();
    assert(l[0].name[0] != l[1].name[0]);
    assert(l[0].name[0] != l[2].name[0]);
    assert(l[1].name[0] != l[2].name[0]);
}

impl ColumnDefinition {
    /// A second column definition with the same content.
    pub fn duplicate(&self) -> (r: ColumnDefinition)
        ensures
            r@ == self@,
    {
        ColumnDefinition {
            name: self.name.clone(),
            data_type: self.data_type.clone(),
            nullable: self.nullable,
            default_value: copy_opt(&self.default_value),
        }
    }
}

/// A second list of strings with the same content.
pub fn copy_strings(list: &Vec<String>) -> (r: Vec<String>)
    ensures
        texts(r@) == texts(list@),
{
    let mut out: Vec<String> = Vec::new();
    let mut i: usize = 0;
    while i < list.len()
        invariant
            i <= list.len(),
            texts(out@) == texts(list@).take(i as int),
        decreases list.len() - i,
    {
        let ghost before = texts(out@);
        out.push(list[i].clone());
        assert(texts(out@) =~= before.push(list@[i as int]@));
        assert(texts(list@).take(i + 1) =~= texts(list@).take(i as int).push(list@[i as int]@));
        i += 1;
    }
    assert(texts(list@).take(list.len() as int) =~= texts(list@));
    out
}

impl TableDefinition {
    /// A second table definition with the same content.
    pub fn duplicate(&self) -> (r: TableDefinition)
        ensures
            r@ == self@,
    {
        let mut columns: Vec<ColumnDefinition> = Vec::new();
        let mut i: usize = 0;
        while i < self.columns.len()
            invariant
                i <= self.columns.len(),
                column_views(columns@) == column_views(self.columns@).take(i as int),
            decreases self.columns.len() - i,
        {
            let ghost before = column_views(columns@);
            columns.push(self.columns[i].duplicate());
            assert(column_views(columns@) =~= before.push(self.columns@[i as int]@));
            assert(column_views(self.columns@).take(i + 1) =~= column_views(self.columns@).take(
                i as int,
            ).push(self.columns@[i as int]@));
            i += 1;
        }
        assert(column_views(self.columns@).take(self.columns.len() as int) =~= column_views(
            self.columns@,
        ));
        let mut unique_constraints: Vec<Vec<String>> = Vec::new();
        let mut k: usize = 0;
        while k < self.unique_constraints.len()
            invariant
                k <= self.unique_constraints.len(),
                text_lists(unique_constraints@) == text_lists(self.unique_constraints@).take(
                    k as int,
                ),
            decreases self.unique_constraints.len() - k,
        {
            let ghost before = text_lists(unique_constraints@);
            unique_constraints.push(copy_strings(&self.unique_constraints[k]));
            assert(text_lists(unique_constraints@) =~= before.push(
                texts(self.unique_constraints@[k as int]@),
            ));
            assert(text_lists(self.unique_constraints@).take(k + 1) =~= text_lists(
                self.unique_constraints@,
            ).take(k as int).push(texts(self.unique_constraints@[k as int]@)));
            k += 1;
        }
        assert(text_lists(self.unique_constraints@).take(self.unique_constraints.len() as int)
            =~= text_lists(self.unique_constraints@));
        TableDefinition {
            name: self.name.clone(),
            columns,
            primary_key: copy_strings(&self.primary_key),
            unique_constraints,
        }
    }
}

impl DatabaseSchema {
    /// What holds of every schema that the gateway declares: no two tables have one name.
    pub open spec fn wf(&self) -> bool {
        names_distinct(table_views(self.tables@))
    }

    /// The schema of the configuration store.
    pub fn current() -> (r: Self)
        ensures
            r.version == 2,
            table_views(r.tables@) == main_tables(),
            r.wf(),
    {
        proof {
            lemma_declared_names_distinct();
        }
        DatabaseSchema { version: 2, tables: define_main_tables() }
    }

    /// The schema of the telemetry store.
    pub fn log_schema() -> (r: Self)
        ensures
            r.version == 1,
            table_views(r.tables@) == log_tables(),
            r.wf(),
    {
        proof {
            lemma_declared_names_distinct();
        }
        DatabaseSchema { version: 1, tables: define_log_tables() }
    }

    /// The tables of the configuration store.
    pub fn define_main_tables() -> (r: Vec<TableDefinition>)
        ensures
            table_views(r@) == main_tables(),
    {
        define_main_tables()
    }

    /// The tables of the telemetry store.
    pub fn define_log_tables() -> (r: Vec<TableDefinition>)
        ensures
            table_views(r@) == log_tables(),
    {
        define_log_tables()
    }

    /// The statements that create every table of the schema, in order.
    pub fn to_create_all_sql(&self) -> (r: Vec<String>)
        ensures
            texts(r@) == create_all_sql(table_views(self.tables@)),
    {
        let mut out: Vec<String> = Vec::new();
        let mut i: usize = 0;
        while i < self.tables.len()
            invariant
                i <= self.tables.len(),
                texts(out@) == create_all_sql(table_views(self.tables@)).take(i as int),
            decreases self.tables.len() - i,
        {
            let ghost before = texts(out@);
            out.push(self.tables[i].to_create_sql());
            assert(texts(out@) =~= before.push(create_sql(self.tables@[i as int]@)));
            assert(create_all_sql(table_views(self.tables@)).take(i + 1) =~= create_all_sql(
                table_views(self.tables@),
            ).take(i as int).push(create_sql(self.tables@[i as int]@)));
            i += 1;
        }
        assert(create_all_sql(table_views(self.tables@)).take(self.tables.len() as int)
            =~= create_all_sql(table_views(self.tables@)));
        out
    }

    /// The index of the table named `name`.
    pub fn find_table(&self, name: &str) -> (r: Option<usize>)
        ensures
            match r {
                Some(i) => i < self.tables.len() && table_index(
                    table_views(self.tables@),
                    name@,
                ) == Some(i as int),
                None => table_index(table_views(self.tables@), name@) is None,
            },
    {
        let wanted = String::from_str(name);
        let ghost all = table_views(self.tables@);
        let mut found: Option<usize> = None;
        let mut i: usize = 0;
        assert(all.take(0) =~= Seq::empty());
        while i < self.tables.len()
            invariant
                i <= self.tables.len(),
                wanted@ == name@,
                all == table_views(self.tables@),
                match found {
                    Some(f) => f < i && table_index(all.take(i as int), name@) == Some(f as int),
                    None => table_index(all.take(i as int), name@) is None,
                },
            decreases self.tables.len() - i,
        {
            assert(all.take(i + 1).drop_last() =~= all.take(i as int));
            if found.is_none() && self.tables[i].name == wanted {
                found = Some(i);
            }
            i += 1;
        }
        assert(all.take(self.tables.len() as int) =~= all);
        found
    }
}

} // verus!
