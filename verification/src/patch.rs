//! The statements that write: partial updates that touch only the fields a
//! caller provided, and inserts.

use vstd::prelude::*;
use vstd::string::StringExecFns;
use crate::codec::{bind_json, json_text};
use crate::descriptor::{find_name, names, EntityDescriptor, Schema};
use crate::error::{Failure, RepoError};
use crate::statement::{
    assigned,
    assigned_columns,
    assigned_values,
    equals_placeholder,
    insert_sql,
    join_columns,
    placeholders,
    update_sql,
    Assigned,
    Assignment,
    Statement,
    StatementView,
};
use crate::value::{params, Param, SqlValue};

verus! {

/// Message of an update that names no field.
pub const EMPTY_PATCH_MESSAGE: &'static str = "沒有提供要更新的字段";

/// Message of a write to a column outside the allow-list.
pub const UNKNOWN_FIELD_MESSAGE: &'static str = "不支援的欄位";

/// Column stamped when a row is created.
pub const CREATED_AT: &'static str = "createdAt";

/// Column stamped when a row is created and whenever it is updated.
pub const UPDATED_AT: &'static str = "updatedAt";

/// Whether every assignment writes a column of the entity's allow-list.
pub open spec fn writable(schema: Schema, list: Seq<Assigned>) -> bool {
    forall|i: int| 0 <= i < list.len() ==> schema.columns.contains(#[trigger] list[i].column)
}

/// The columns that an update sets: those of the patch, then the update stamp.
pub open spec fn update_columns(patch: Seq<Assigned>) -> Seq<Seq<char>> {
    assigned_columns(patch).push(UPDATED_AT@)
}

/// The parameters of an update: the values of the patch, the time, the identity.
pub open spec fn update_params(id: Param, patch: Seq<Assigned>, now: Seq<char>) -> Seq<Param> {
    assigned_values(patch).push(Param::Text(now)).push(id)
}

/// The update of the row with identity `id`: rejected when the patch is empty or
/// writes a column outside the allow-list, else the statement that sets exactly
/// the patch's columns and the update stamp.
pub open spec fn update_plan(schema: Schema, id: Param, patch: Seq<Assigned>, now: Seq<char>) -> Result<
    StatementView,
    Failure,
> {
    if patch.len() == 0 {
        Err(Failure::ValidationError(EMPTY_PATCH_MESSAGE@))
    } else if !writable(schema, patch) {
        Err(Failure::ValidationError(UNKNOWN_FIELD_MESSAGE@))
    } else {
        Ok(
            StatementView {
                sql: update_sql(schema.table, update_columns(patch), schema.key_column),
                params: update_params(id, patch, now),
            },
        )
    }
}

/// The columns that an insert fills: the identity when it is generated here, the
/// given columns, then both stamps.
pub open spec fn insert_columns(schema: Schema, values: Seq<Assigned>) -> Seq<Seq<char>> {
    let key = if schema.generated_key {
        seq![schema.key_column]
    } else {
        Seq::empty()
    };
    key + assigned_columns(values) + seq![CREATED_AT@, UPDATED_AT@]
}

/// The parameters of an insert: the generated identity if any, the given values,
/// then the same time for both stamps.
pub open spec fn insert_params(schema: Schema, fresh_key: Seq<char>, values: Seq<Assigned>, now: Seq<char>) -> Seq<
    Param,
> {
    let key = if schema.generated_key {
        seq![Param::Text(fresh_key)]
    } else {
        Seq::empty()
    };
    key + assigned_values(values) + seq![Param::Text(now), Param::Text(now)]
}

/// The insert of one row: rejected when it writes a column outside the
/// allow-list, else the statement that fills the given columns and the stamps.
pub open spec fn insert_plan(schema: Schema, fresh_key: Seq<char>, values: Seq<Assigned>, now: Seq<char>) -> Result<
    StatementView,
    Failure,
> {
    if !writable(schema, values) {
        Err(Failure::ValidationError(UNKNOWN_FIELD_MESSAGE@))
    } else {
        Ok(
            StatementView {
                sql: insert_sql(schema.table, insert_columns(schema, values)),
                params: insert_params(schema, fresh_key, values, now),
            },
        )
    }
}

/// Whether a statement result has the given content.
pub open spec fn planned(r: Result<Statement, RepoError>, plan: Result<StatementView, Failure>) -> bool {
    match r {
        Ok(s) => plan == Ok::<StatementView, Failure>(s@),
        Err(e) => plan == Err::<StatementView, Failure>(e@),
    }
}

/// Splits assignments into their columns and their values, provided every
/// column is on the entity's allow-list.
fn split_assignments(desc: &EntityDescriptor, list: &Vec<Assignment>) -> (r: Option<
    (Vec<&'static str>, Vec<SqlValue>),
>)
    ensures
        r is Some <==> writable(desc@, assigned(list@)),
        r matches Some((columns, values)) ==> {
            &&& names(columns@) == assigned_columns(assigned(list@))
            &&& params(values@) == assigned_values(assigned(list@))
        },
{
    let ghost all = assigned(list@);
    let mut columns: Vec<&'static str> = Vec::new();
    let mut values: Vec<SqlValue> = Vec::new();
    let mut i: usize = 0;
    while i < list.len()
        invariant
            i <= list.len(),
            all == assigned(list@),
            names(columns@) =~= assigned_columns(all).take(i as int),
            params(values@) =~= assigned_values(all).take(i as int),
            forall|j: int| 0 <= j < i ==> desc@.columns.contains(#[trigger] all[j].column),
        decreases list.len() - i,
    {
        let assignment = &list[i];
        match find_name(&desc.columns, assignment.column) {
            None => {
                assert(!desc@.columns.contains(all[i as int].column));
                return None;
            },
            Some(column) => {
                let ghost columns_before = names(columns@);
                let ghost values_before = params(values@);
                let value = assignment.value.clone();
                columns.push(column);
                values.push(value);
                proof {
                    assert(all[i as int] == list@[i as int]@);
                    assert(names(columns@) =~= columns_before.push(all[i as int].column));
                    assert(params(values@) =~= values_before.push(all[i as int].value));
                    assert(assigned_columns(all).take(i + 1) =~= assigned_columns(all).take(
                        i as int,
                    ).push(all[i as int].column));
                    assert(assigned_values(all).take(i + 1) =~= assigned_values(all).take(
                        i as int,
                    ).push(all[i as int].value));
                }
            },
        }
        i += 1;
    }
    assert(assigned_columns(all).take(list.len() as int) =~= assigned_columns(all));
    assert(assigned_values(all).take(list.len() as int) =~= assigned_values(all));
    Some((columns, values))
}

/// Plans the update of the row with identity `id`, stamped with `now`.
pub fn plan_update(desc: &EntityDescriptor, id: SqlValue, patch: &Vec<Assignment>, now: &str) -> (r: Result<
    Statement,
    RepoError,
>)
    ensures
        planned(r, update_plan(desc@, id@, assigned(patch@), now@)),
{
    if patch.len() == 0 {
        return Err(RepoError::ValidationError(String::from_str(EMPTY_PATCH_MESSAGE)));
    }
    match split_assignments(desc, patch) {
        None => Err(RepoError::ValidationError(String::from_str(UNKNOWN_FIELD_MESSAGE))),
        Some((mut columns, mut values)) => {
            columns.push(UPDATED_AT);
            values.push(SqlValue::text(now));
            values.push(id);
            let mut sql = String::from_str("UPDATE ");
            sql.append(desc.table);
            sql.append(" SET ");
            let sets = join_columns(&columns, " = ?");
            sql.append(sets.as_str());
            sql.append(" WHERE ");
            let condition = equals_placeholder(desc.key_column);
            sql.append(condition.as_str());
            proof {
                let given = assigned(patch@);
                assert(names(columns@) =~= update_columns(given));
                assert(params(values@) =~= update_params(id@, given, now@));
            }
            Ok(Statement { sql, params: values })
        },
    }
}

/// Plans the insert of one row, stamped twice with `now`; `fresh_key` is the
/// identity given to the row where the entity's identities are generated here.
pub fn plan_insert(desc: &EntityDescriptor, fresh_key: &str, values: &Vec<Assignment>, now: &str) -> (r: Result<
    Statement,
    RepoError,
>)
    ensures
        planned(r, insert_plan(desc@, fresh_key@, assigned(values@), now@)),
{
    match split_assignments(desc, values) {
        None => Err(RepoError::ValidationError(String::from_str(UNKNOWN_FIELD_MESSAGE))),
        Some((mut given_columns, mut given_values)) => {
            let ghost given = assigned(values@);
            let mut columns: Vec<&'static str> = Vec::new();
            let mut bound: Vec<SqlValue> = Vec::new();
            if desc.generated_key {
                columns.push(desc.key_column);
                bound.push(SqlValue::text(fresh_key));
            }
            columns.append(&mut given_columns);
            bound.append(&mut given_values);
            columns.push(CREATED_AT);
            columns.push(UPDATED_AT);
            bound.push(SqlValue::text(now));
            bound.push(SqlValue::text(now));
            proof {
                assert(names(columns@) =~= insert_columns(desc@, given));
                assert(params(bound@) =~= insert_params(desc@, fresh_key@, given, now@));
            }
            let mut sql = String::from_str("INSERT INTO ");
            sql.append(desc.table);
            sql.append(" (");
            let list = join_columns(&columns, "");
            sql.append(list.as_str());
            sql.append(") VALUES (");
            let slots = placeholders(columns.len());
            sql.append(slots.as_str());
            sql.append(")");
            proof {
                reveal_strlit("");
                assert(""@ =~= Seq::<char>::empty());
                assert(names(columns@).len() == columns@.len());
            }
            Ok(Statement { sql, params: bound })
        },
    }
}

/// One assignment.
pub open spec fn set_to(column: Seq<char>, value: Param) -> Seq<Assigned> {
    seq![Assigned { column, value }]
}

/// The assignment of a text field, if the field is present.
pub open spec fn set_if_text(column: Seq<char>, field: Option<String>) -> Seq<Assigned> {
    match field {
        Some(s) => set_to(column, Param::Text(s@)),
        None => Seq::empty(),
    }
}

/// The assignment of an integer field, if the field is present.
pub open spec fn set_if_int(column: Seq<char>, field: Option<i64>) -> Seq<Assigned> {
    match field {
        Some(n) => set_to(column, Param::Int(n as int)),
        None => Seq::empty(),
    }
}

/// The assignment of a JSON-valued field, encoded as text, if the field is
/// present.
pub open spec fn set_if_json(column: Seq<char>, field: Option<serde_json::Value>) -> Seq<Assigned> {
    match field {
        Some(v) => set_to(column, Param::Text(json_text(v))),
        None => Seq::empty(),
    }
}

/// Adds one assignment.
pub fn assign(list: &mut Vec<Assignment>, column: &'static str, value: SqlValue)
    ensures
        assigned(final(list)@) == assigned(old(list)@) + set_to(column@, value@),
{
    list.push(Assignment { column, value });
    assert(assigned(list@) =~= assigned(old(list)@) + set_to(column@, value@));
}

/// Adds the assignment of a text field, if the field is present.
pub fn assign_text(list: &mut Vec<Assignment>, column: &'static str, field: &Option<String>)
    ensures
        assigned(final(list)@) == assigned(old(list)@) + set_if_text(column@, *field),
{
    match field {
        Some(s) => assign(list, column, SqlValue::Text(s.clone())),
        None => {
            assert(assigned(list@) =~= assigned(list@) + Seq::<Assigned>::empty());
        },
    }
}

/// Adds the assignment of an integer field, if the field is present.
pub fn assign_int(list: &mut Vec<Assignment>, column: &'static str, field: &Option<i64>)
    ensures
        assigned(final(list)@) == assigned(old(list)@) + set_if_int(column@, *field),
{
    match field {
        Some(n) => assign(list, column, SqlValue::Int(*n)),
        None => {
            assert(assigned(list@) =~= assigned(list@) + Seq::<Assigned>::empty());
        },
    }
}

/// Adds the assignment of a JSON-valued field, encoded as text, if the field is
/// present.
pub fn assign_json(list: &mut Vec<Assignment>, column: &'static str, field: &Option<serde_json::Value>)
    ensures
        assigned(final(list)@) == assigned(old(list)@) + set_if_json(column@, *field),
{
    match field {
        Some(_) => assign(list, column, bind_json(field)),
        None => {
            assert(assigned(list@) =~= assigned(list@) + Seq::<Assigned>::empty());
        },
    }
}

/// Assignments joined end to end are writable exactly when both parts are.
pub broadcast proof fn writable_joined(schema: Schema, first: Seq<Assigned>, second: Seq<Assigned>)
    ensures
        #[trigger] writable(schema, first + second) == (writable(schema, first) && writable(
            schema,
            second,
        )),
{
    let both = first + second;
    if writable(schema, first) && writable(schema, second) {
        assert forall|i: int| 0 <= i < both.len() implies schema.columns.contains(
            #[trigger] both[i].column,
        ) by {
            if i < first.len() {
                assert(both[i] == first[i]);
            } else {
                assert(both[i] == second[i - first.len()]);
            }
        }
    }
    if writable(schema, both) {
        assert forall|i: int| 0 <= i < first.len() implies schema.columns.contains(
            #[trigger] first[i].column,
        ) by {
            assert(both[i] == first[i]);
        }
        assert forall|i: int| 0 <= i < second.len() implies schema.columns.contains(
            #[trigger] second[i].column,
        ) by {
            assert(both[i + first.len()] == second[i]);
        }
    }
}

/// One assignment is writable exactly when its column is on the allow-list.
pub broadcast proof fn writable_single(schema: Schema, column: Seq<char>, value: Param)
    ensures
        #[trigger] writable(schema, set_to(column, value)) == schema.columns.contains(column),
{
    let one = set_to(column, value);
    assert(one[0].column == column);
}

/// No assignment at all is writable.
pub broadcast proof fn writable_none(schema: Schema)
    ensures
        #[trigger] writable(schema, Seq::<Assigned>::empty()),
{
}

/// An update that names one field sets that field and the update stamp, and no
/// other column.
pub proof fn single_field_update_sets_field_and_stamp(
    schema: Schema,
    id: Param,
    field: Assigned,
    now: Seq<char>,
)
    requires
        schema.columns.contains(field.column),
    ensures
        update_plan(schema, id, seq![field], now) == Ok::<StatementView, Failure>(
            StatementView {
                sql: update_sql(schema.table, seq![field.column, UPDATED_AT@], schema.key_column),
                params: seq![field.value, Param::Text(now), id],
            },
        ),
{
    let patch = seq![field];
    assert(writable(schema, patch));
    assert(update_columns(patch) =~= seq![field.column, UPDATED_AT@]);
    assert(update_params(id, patch, now) =~= seq![field.value, Param::Text(now), id]);
}

/// An update sets the columns of its patch, one parameter each and in the
/// patch's order, then the update stamp; its last parameter is the identity.
pub proof fn update_sets_patch_then_stamp(schema: Schema, id: Param, patch: Seq<Assigned>, now: Seq<char>)
    requires
        update_plan(schema, id, patch, now) is Ok,
    ensures
        ({
            let statement = update_plan(schema, id, patch, now)->Ok_0;
            let columns = update_columns(patch);
            let n = patch.len() as int;
            &&& statement.sql == update_sql(schema.table, columns, schema.key_column)
            &&& columns.len() == n + 1
            &&& statement.params.len() == n + 2
            &&& forall|i: int|
                0 <= i < n ==> columns[i] == (#[trigger] patch[i]).column && statement.params[i]
                    == patch[i].value
            &&& columns[n] == UPDATED_AT@
            &&& statement.params[n] == Param::Text(now)
            &&& statement.params[n + 1] == id
        }),
{
}

/// A create binds the fields it is given, one parameter each and in order, and
/// stamps the row with one and the same time as creation and as update time.
pub proof fn insert_binds_fields_and_equal_stamps(
    schema: Schema,
    fresh_key: Seq<char>,
    values: Seq<Assigned>,
    now: Seq<char>,
)
    requires
        insert_plan(schema, fresh_key, values, now) is Ok,
    ensures
        ({
            let statement = insert_plan(schema, fresh_key, values, now)->Ok_0;
            let columns = insert_columns(schema, values);
            let first = if schema.generated_key {
                1int
            } else {
                0int
            };
            let n = values.len() as int;
            &&& statement.sql == insert_sql(schema.table, columns)
            &&& columns.len() == first + n + 2
            &&& statement.params.len() == columns.len()
            &&& schema.generated_key ==> columns[0] == schema.key_column && statement.params[0]
                == Param::Text(fresh_key)
            &&& forall|i: int|
                0 <= i < n ==> columns[first + i] == (#[trigger] values[i]).column
                    && statement.params[first + i] == values[i].value
            &&& columns[first + n] == CREATED_AT@
            &&& columns[first + n + 1] == UPDATED_AT@
            &&& statement.params[first + n] == Param::Text(now)
            &&& statement.params[first + n + 1] == statement.params[first + n]
        }),
{
}

} // verus!
