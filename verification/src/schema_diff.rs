//! What separates a store from its declared structure.

use crate::schema::{
    create_sql, table_index, table_views, DatabaseSchema, TableDefinition, TableView,
};
use crate::text::{
    chars_eq, chars_of, eq_ignore_case, lower_chars, opt_view, replace_all, replaced, squeeze,
    squeezed, string_of,
};
use vstd::prelude::*;

verus! {

/// One change that brings a store to the declared schema.
#[derive(Debug)]
pub enum SchemaChange {
    /// Drop a table that the schema does not declare.
    DropTable { name: String },
    /// Create a table that the store does not have.
    CreateTable { definition: TableDefinition },
    /// Rebuild a table whose structure differs from the declared one.
    RebuildTable { name: String },
}

/// The changes that bring a store to the declared schema, in the order in which they are
/// applied.
#[derive(Debug)]
pub struct SchemaDiff {
    pub changes: Vec<SchemaChange>,
}

/// A table as the store has it: its name and the statement that created it, if that is known.
#[derive(Debug)]
pub struct ActualTable {
    pub name: String,
    pub sql: Option<String>,
}

/// A change as contracts see it.
pub enum ChangeView {
    Drop(Seq<char>),
    Create(TableView),
    Rebuild(Seq<char>),
}

impl View for SchemaChange {
    type V = ChangeView;

    open spec fn view(&self) -> ChangeView {
        match self {
            SchemaChange::DropTable { name } => ChangeView::Drop(name@),
            SchemaChange::CreateTable { definition } => ChangeView::Create(definition@),
            SchemaChange::RebuildTable { name } => ChangeView::Rebuild(name@),
        }
    }
}

/// The changes of a list, in order.
pub open spec fn change_views(changes: Seq<SchemaChange>) -> Seq<ChangeView> {
    Seq::new(changes.len(), |i: int| changes[i]@)
}

impl View for ActualTable {
    type V = (Seq<char>, Option<Seq<char>>);

    open spec fn view(&self) -> (Seq<char>, Option<Seq<char>>) {
        (self.name@, opt_view(self.sql))
    }
}

/// The tables of a store, in order.
pub open spec fn actual_views(tables: Seq<ActualTable>) -> Seq<(Seq<char>, Option<Seq<char>>)> {
    Seq::new(tables.len(), |i: int| tables[i]@)
}

/// A statement as it is compared: double quotes and `IF NOT EXISTS` are left out, and the
/// words are set one space apart.
pub open spec fn normalized_sql(sql: Seq<char>) -> Seq<char> {
    squeezed(replaced(replaced(sql, seq!['"'], Seq::empty()), "IF NOT EXISTS"@, Seq::empty()))
}

/// Whether two statements that create a table differ in more than quoting, spacing and the
/// case of ASCII letters.
pub open spec fn structure_differs(expected_sql: Seq<char>, actual_sql: Seq<char>) -> bool {
    !eq_ignore_case(normalized_sql(expected_sql), normalized_sql(actual_sql))
}

/// The index of the first table of the store named `name`.
pub open spec fn actual_index(actual: Seq<(Seq<char>, Option<Seq<char>>)>, name: Seq<char>)
    -> Option<int>
    decreases actual.len(),
{
    if actual.len() == 0 {
        None
    } else {
        match actual_index(actual.drop_last(), name) {
            Some(i) => Some(i),
            None => if actual.last().0 == name {
                Some(actual.len() - 1)
            } else {
                None
            },
        }
    }
}

/// The tables to drop: those of the store that the schema does not declare, in the order of
/// the store.
pub open spec fn drops(actual: Seq<(Seq<char>, Option<Seq<char>>)>, expected: Seq<TableView>)
    -> Seq<ChangeView>
    decreases actual.len(),
{
    if actual.len() == 0 {
        Seq::empty()
    } else {
        let earlier = drops(actual.drop_last(), expected);
        if table_index(expected, actual.last().0) is None {
            earlier.push(ChangeView::Drop(actual.last().0))
        } else {
            earlier
        }
    }
}

/// What is to be done about one declared table: create it where the store has none of its
/// name, rebuild it where the store's statement is known and differs, else nothing.
pub open spec fn change_for(table: TableView, actual: Seq<(Seq<char>, Option<Seq<char>>)>)
    -> Option<ChangeView> {
    match actual_index(actual, table.name) {
        None => Some(ChangeView::Create(table)),
        Some(i) => match actual[i].1 {
            Some(sql) => if structure_differs(create_sql(table), sql) {
                Some(ChangeView::Rebuild(table.name))
            } else {
                None
            },
            None => None,
        },
    }
}

/// The tables to create or rebuild, in the order of the schema.
pub open spec fn upgrades(expected: Seq<TableView>, actual: Seq<(Seq<char>, Option<Seq<char>>)>)
    -> Seq<ChangeView>
    decreases expected.len(),
{
    if expected.len() == 0 {
        Seq::empty()
    } else {
        let earlier = upgrades(expected.drop_last(), actual);
        match change_for(expected.last(), actual) {
            Some(change) => earlier.push(change),
            None => earlier,
        }
    }
}

/// The changes that bring a store to the schema: first the drops, then the creations and
/// rebuilds.
pub open spec fn schema_changes(
    expected: Seq<TableView>,
    actual: Seq<(Seq<char>, Option<Seq<char>>)>,
) -> Seq<ChangeView> {
    drops(actual, expected) + upgrades(expected, actual)
}

fn find_actual(actual: &Vec<ActualTable>, name: &String) -> (r: Option<usize>)
    ensures
        match r {
            Some(i) => i < actual.len() && actual_index(actual_views(actual@), name@) == Some(
                i as int,
            ),
            None => actual_index(actual_views(actual@), name@) is None,
        },
{
    let ghost all = actual_views(actual@);
    let mut found: Option<usize> = None;
    let mut i: usize = 0;
    assert(all.take(0) =~= Seq::empty());
    while i < actual.len()
        invariant
            i <= actual.len(),
            all == actual_views(actual@),
            match found {
                Some(f) => f < i && actual_index(all.take(i as int), name@) == Some(f as int),
                None => actual_index(all.take(i as int), name@) is None,
            },
        decreases actual.len() - i,
    {
        assert(all.take(i + 1).drop_last() =~= all.take(i as int));
        if found.is_none() && actual[i].name == *name {
            found = Some(i);
        }
        i += 1;
    }
    assert(all.take(actual.len() as int) =~= all);
    found
}

impl SchemaDiff {
    /// Compares the declared schema with the tables of a store, and lists the changes.
    pub fn compare_async(expected: &DatabaseSchema, actual: &Vec<ActualTable>) -> (r: SchemaDiff)
        ensures
            change_views(r.changes@) == schema_changes(
                table_views(expected.tables@),
                actual_views(actual@),
            ),
    {
        let ghost want = table_views(expected.tables@);
        let ghost have = actual_views(actual@);
        let mut changes: Vec<SchemaChange> = Vec::new();
        let mut i: usize = 0;
        assert(have.take(0) =~= Seq::empty());
        assert(change_views(changes@) =~= Seq::empty());
        while i < actual.len()
            invariant
                i <= actual.len(),
                want == table_views(expected.tables@),
                have == actual_views(actual@),
                change_views(changes@) == drops(have.take(i as int), want),
            decreases actual.len() - i,
        {
            let ghost before = change_views(changes@);
            assert(have.take(i + 1).drop_last() =~= have.take(i as int));
            if expected.find_table(actual[i].name.as_str()).is_none() {
                changes.push(SchemaChange::DropTable { name: actual[i].name.clone() });
                assert(change_views(changes@) =~= before.push(
                    ChangeView::Drop(actual@[i as int].name@),
                ));
            }
            i += 1;
        }
        assert(have.take(actual.len() as int) =~= have);
        let ghost dropped = change_views(changes@);
        let mut k: usize = 0;
        assert(want.take(0) =~= Seq::empty());
        assert(dropped + Seq::<ChangeView>::empty() =~= dropped);
        while k < expected.tables.len()
            invariant
                k <= expected.tables.len(),
                want == table_views(expected.tables@),
                have == actual_views(actual@),
                change_views(changes@) == dropped + upgrades(want.take(k as int), have),
            decreases expected.tables.len() - k,
        {
            let ghost before = change_views(changes@);
            let ghost earlier = upgrades(want.take(k as int), have);
            assert(want.take(k + 1).drop_last() =~= want.take(k as int));
            let table = &expected.tables[k];
            match find_actual(actual, &table.name) {
                None => {
                    changes.push(SchemaChange::CreateTable { definition: table.duplicate() });
                    assert(change_views(changes@) =~= before.push(ChangeView::Create(table@)));
                    assert(before.push(ChangeView::Create(table@)) =~= dropped + earlier.push(
                        ChangeView::Create(table@),
                    ));
                },
                Some(j) => {
                    let differs = match &actual[j].sql {
                        Some(sql) => SchemaDiff::table_structure_differs(
                            table.to_create_sql().as_str(),
                            sql.as_str(),
                        ),
                        None => false,
                    };
                    if differs {
                        changes.push(SchemaChange::RebuildTable { name: table.name.clone() });
                        assert(change_views(changes@) =~= before.push(
                            ChangeView::Rebuild(table@.name),
                        ));
                        assert(before.push(ChangeView::Rebuild(table@.name)) =~= dropped
                            + earlier.push(ChangeView::Rebuild(table@.name)));
                    }
                },
            }
            k += 1;
        }
        assert(want.take(expected.tables.len() as int) =~= want);
        SchemaDiff { changes }
    }

    /// The number of changes.
    pub fn change_count(&self) -> (r: usize)
        ensures
            r == self.changes@.len(),
    {
        self.changes.len()
    }

    /// Whether there is any change.
    pub fn has_changes(&self) -> (r: bool)
        ensures
            r == (self.changes@.len() > 0),
    {
        self.changes.len() > 0
    }

    /// A statement as it is compared.
    pub fn normalize_sql(sql: &str) -> (r: String)
        ensures
            r@ == normalized_sql(sql@),
    {
        let chars = chars_of(sql);
        let mut quote: Vec<char> = Vec::new();
        quote.push('"');
        assert(quote@ =~= seq!['"']);
        let nothing: Vec<char> = Vec::new();
        assert(nothing@ =~= Seq::<char>::empty());
        let unquoted = replace_all(&chars, &quote, &nothing);
        let phrase = chars_of("IF NOT EXISTS");
        let plain = replace_all(&unquoted, &phrase, &nothing);
        string_of(&squeeze(&plain))
    }

    /// Whether two statements that create a table differ in structure.
    pub fn table_structure_differs(expected_sql: &str, actual_sql: &str) -> (r: bool)
        ensures
            r == structure_differs(expected_sql@, actual_sql@),
    {
        let expected = SchemaDiff::normalize_sql(expected_sql);
        let actual = SchemaDiff::normalize_sql(actual_sql);
        let a = lower_chars(&chars_of(expected.as_str()));
        let b = lower_chars(&chars_of(actual.as_str()));
        !chars_eq(&a, &b)
    }
}

} // verus!
