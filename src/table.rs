use vstd::prelude::*;
use vstd::string::*;

use crate::error::LanceError;

verus! {

/// A record as the table holds it.
pub struct RowView {
    pub key: Seq<char>,
    pub agent_id: Seq<char>,
    pub text: Seq<char>,
    pub metadata: Option<Seq<char>>,
    pub created_at: int,
}

/// The rows that remain after a predicate delete of `key = k`.
pub open spec fn remove_key(rows: Seq<RowView>, k: Seq<char>) -> Seq<RowView> {
    rows.filter(other_key(k))
}

pub open spec fn other_key(k: Seq<char>) -> spec_fn(RowView) -> bool {
    |r: RowView| r.key != k
}

pub open spec fn same_key(k: Seq<char>) -> spec_fn(RowView) -> bool {
    |r: RowView| r.key == k
}

/// The number of rows whose key is `k`.
pub open spec fn key_count(rows: Seq<RowView>, k: Seq<char>) -> nat {
    rows.filter(same_key(k)).len()
}

/// How a write reaches the table once the table list has been read.
#[derive(Debug, Clone, Copy, PartialEq, Eq, Structural)]
pub enum WritePlan {
    /// No table yet: create it from the new record.
    CreateTable,
    /// The table opens: append the new record.
    AppendToTable,
    /// The table is listed but does not open: drop it and create it from the new record.
    RecreateTable,
}

pub open spec fn plan_write_spec(table_exists: bool, table_opens: bool) -> WritePlan {
    if !table_exists {
        WritePlan::CreateTable
    } else if table_opens {
        WritePlan::AppendToTable
    } else {
        WritePlan::RecreateTable
    }
}

/// The rows of the table after the write `plan` of `row` on `rows`.
pub open spec fn apply_write(plan: WritePlan, rows: Seq<RowView>, row: RowView) -> Seq<RowView> {
    match plan {
        WritePlan::AppendToTable => rows.push(row),
        _ => seq![row],
    }
}

/// The rows of the table after a store of `row`: the old row of its key is deleted where
/// the table opens, then the write plan runs. An absent table holds no rows.
pub open spec fn store_effect(
    rows: Seq<RowView>,
    table_exists: bool,
    table_opens: bool,
    row: RowView,
) -> Seq<RowView> {
    let cleared = if table_exists && table_opens {
        remove_key(rows, row.key)
    } else {
        rows
    };
    apply_write(plan_write_spec(table_exists, table_opens), cleared, row)
}

/// The rows of the table after a delete of `k`.
pub open spec fn delete_effect(rows: Seq<RowView>, table_exists: bool, k: Seq<char>) -> Seq<RowView> {
    if table_exists {
        remove_key(rows, k)
    } else {
        rows
    }
}

proof fn lemma_removed_then_pushed(rows: Seq<RowView>, row: RowView)
    ensures
        key_count(remove_key(rows, row.key).push(row), row.key) == 1,
        forall|i: int|
            0 <= i < remove_key(rows, row.key).push(row).len() && (#[trigger] remove_key(
                rows,
                row.key,
            ).push(row)[i]).key == row.key ==> remove_key(rows, row.key).push(row)[i] == row,
{
    broadcast use Seq::lemma_filter_pred, Seq::lemma_filter_push;

    let c = remove_key(rows, row.key);
    assert(forall|i: int| 0 <= i < c.len() ==> (#[trigger] c[i]).key != row.key);
    assert(c.all(|x: RowView| !same_key(row.key)(x)));
    c.lemma_all_neg_filter_empty(same_key(row.key));
    assert(c.push(row).filter(same_key(row.key)) == c.filter(same_key(row.key)).push(row));
}

/// After a store of `row` completes, the table holds exactly one row with its key, and
/// that row is `row` itself: its text, embedding and metadata are the ones just written.
pub proof fn lemma_store_leaves_one(
    rows: Seq<RowView>,
    table_exists: bool,
    table_opens: bool,
    row: RowView,
)
    requires
        !table_exists ==> rows.len() == 0,
    ensures
        key_count(store_effect(rows, table_exists, table_opens, row), row.key) == 1,
        forall|i: int|
            0 <= i < store_effect(rows, table_exists, table_opens, row).len() && (
            #[trigger] store_effect(rows, table_exists, table_opens, row)[i]).key == row.key
                ==> store_effect(rows, table_exists, table_opens, row)[i] == row,
{
    broadcast use Seq::lemma_filter_push;

    if table_exists && table_opens {
        lemma_removed_then_pushed(rows, row);
    } else {
        let e = Seq::<RowView>::empty();
        assert(seq![row] == e.push(row));
        assert(e.filter(same_key(row.key)).len() == 0) by {
            e.lemma_all_neg_filter_empty(same_key(row.key));
        }
    }
}

/// Two stores of one key, one after the other, leave one row for that key: the one written
/// last.
pub proof fn lemma_store_twice(
    rows: Seq<RowView>,
    table_exists: bool,
    table_opens: bool,
    first: RowView,
    second: RowView,
)
    requires
        !table_exists ==> rows.len() == 0,
        first.key == second.key,
    ensures
        key_count(
            store_effect(store_effect(rows, table_exists, table_opens, first), true, true, second),
            second.key,
        ) == 1,
        forall|i: int|
            0 <= i < store_effect(
                store_effect(rows, table_exists, table_opens, first),
                true,
                true,
                second,
            ).len() && (#[trigger] store_effect(
                store_effect(rows, table_exists, table_opens, first),
                true,
                true,
                second,
            )[i]).key == second.key ==> store_effect(
                store_effect(rows, table_exists, table_opens, first),
                true,
                true,
                second,
            )[i] == second,
{
    lemma_store_leaves_one(store_effect(rows, table_exists, table_opens, first), true, true, second);
}

/// Deleting a key that no row holds leaves the table as it was; on an absent table it
/// does nothing.
pub proof fn lemma_delete_absent_key(rows: Seq<RowView>, table_exists: bool, k: Seq<char>)
    requires
        key_count(rows, k) == 0,
    ensures
        delete_effect(rows, table_exists, k) == rows,
{
    broadcast use Seq::lemma_filter_contains;

    if table_exists {
        assert forall|i: int| 0 <= i < rows.len() implies (#[trigger] rows[i]).key != k by {
            if rows[i].key == k {
                assert(rows.filter(same_key(k)).contains(rows[i]));
            }
        }
        lemma_filter_all_kept(rows, other_key(k));
    }
}

proof fn lemma_filter_all_kept(s: Seq<RowView>, p: spec_fn(RowView) -> bool)
    requires
        forall|i: int| 0 <= i < s.len() ==> p(#[trigger] s[i]),
    ensures
        s.filter(p) == s,
    decreases s.len(),
{
    broadcast use Seq::lemma_filter_push;

    if s.len() > 0 {
        lemma_filter_all_kept(s.drop_last(), p);
        assert(s.drop_last().push(s.last()) == s);
    } else {
        assert(s.filter(p).len() == 0) by {
            s.lemma_all_neg_filter_empty(p);
        }
        assert(s.filter(p) == s);
    }
}

/// The name of the table that holds the records.
pub fn default_table_name() -> (r: String)
    ensures
        r@ == "memories"@,
{
    String::from_str("memories")
}

/// The table that a clear drops: the one named, else the default one.
pub fn clear_target(collection: Option<String>) -> (r: String)
    ensures
        r@ == (match collection {
            Some(c) => c@,
            None => "memories"@,
        }),
{
    match collection {
        Some(c) => c,
        None => default_table_name(),
    }
}

/// Whether `name` is among the listed table names.
pub fn has_table(names: &Vec<String>, name: &str) -> (r: bool)
    ensures
        r == exists|i: int| 0 <= i < names@.len() && names@[i]@ == name@,
{
    let target = String::from_str(name);
    let mut i: usize = 0;
    while i < names.len()
        invariant
            i <= names@.len(),
            target@ == name@,
            forall|j: int| 0 <= j < i ==> names@[j]@ != name@,
        decreases names@.len() - i,
    {
        if names[i] == target {
            return true;
        }
        i = i + 1;
    }
    false
}

/// The result of a write: a failed append is an insert error, a failed create a table error.
pub fn finish_write(plan: WritePlan, outcome: Result<(), String>) -> (r: Result<(), LanceError>)
    ensures
        r is Ok <==> outcome is Ok,
        r matches Err(e) ==> e.message_view() == outcome->Err_0@ && (if plan == WritePlan::AppendToTable {
            e is InsertError
        } else {
            e is TableError
        }),
{
    match outcome {
        Ok(()) => Ok(()),
        Err(message) => {
            if plan == WritePlan::AppendToTable {
                Err(LanceError::InsertError { message })
            } else {
                Err(LanceError::TableError { message })
            }
        },
    }
}

/// The result of a delete: nothing to do where the table is absent, else the predicate
/// delete's outcome, a failure being a delete error.
pub fn finish_delete(table_exists: bool, outcome: Result<(), String>) -> (r: Result<(), LanceError>)
    ensures
        !table_exists ==> r is Ok,
        table_exists ==> (r is Ok <==> outcome is Ok),
        r matches Err(e) ==> e is DeleteError && e.message_view() == outcome->Err_0@,
{
    if !table_exists {
        return Ok(());
    }
    match outcome {
        Ok(()) => Ok(()),
        Err(message) => Err(LanceError::DeleteError { message }),
    }
}

/// The result of a clear: nothing to do where the table is absent, else the drop's
/// outcome, a failure being a table error.
pub fn finish_clear(table_exists: bool, outcome: Result<(), String>) -> (r: Result<(), LanceError>)
    ensures
        !table_exists ==> r is Ok,
        table_exists ==> (r is Ok <==> outcome is Ok),
        r matches Err(e) ==> e is TableError && e.message_view() == outcome->Err_0@,
{
    if !table_exists {
        return Ok(());
    }
    match outcome {
        Ok(()) => Ok(()),
        Err(message) => Err(LanceError::TableError { message }),
    }
}

/// The result of a query (search or list) that reached the engine: a failure is a query
/// error.
pub fn finish_query<T>(outcome: Result<T, String>) -> (r: Result<T, LanceError>)
    ensures
        outcome matches Ok(v) ==> r == Ok::<T, LanceError>(v),
        r matches Err(e) ==> e is QueryError && e.message_view() == outcome->Err_0@,
        r is Ok <==> outcome is Ok,
{
    match outcome {
        Ok(v) => Ok(v),
        Err(message) => Err(LanceError::QueryError { message }),
    }
}

} // verus!
