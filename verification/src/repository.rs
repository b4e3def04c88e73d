//! The repository's decisions. Each operation is a short conversation with the
//! store: the library says what to run next, the caller runs it and hands back
//! what the store replied, until the library says how the operation ended.

use vstd::prelude::*;
use vstd::string::StringExecFns;
use crate::descriptor::{find_name, EntityDescriptor, Schema};
use crate::error::{Failure, RepoError};
use crate::patch::{insert_plan, plan_insert, plan_update, update_plan};
use crate::query::{list_plan, plan_list, ListQuery, Listing};
use crate::stamp::{current_timestamp, fresh_identity, is_identity, is_utc_stamp};
use crate::statement::{
    assigned,
    count_by,
    count_by_sql,
    delete_by,
    delete_by_sql,
    select_by,
    select_by_sql,
    select_by_text,
    Assigned,
    Assignment,
    Lookup,
    Statement,
    StatementView,
};
use crate::value::{display_text, params, same_text, Param, SqlValue};

verus! {

/// How an operation ended well.
#[derive(Debug)]
pub enum Outcome<R> {
    /// One page of a listing, with the number of all matching rows and the page
    /// bounds used.
    Page { rows: Vec<R>, total: i64, limit: i64, offset: i64 },
    /// All rows that a column lookup matched.
    Items(Vec<R>),
    /// The row that a lookup found.
    Item(R),
    /// The row just created, as read back.
    Created(R),
    /// The row just updated, as read back.
    Updated(R),
    /// The row is gone.
    Deleted,
}

/// Why the store could not carry out a statement.
#[derive(Clone, Copy, Debug, PartialEq, Eq, Structural)]
pub enum StoreFailure {
    /// No connection could be had before the acquire timeout.
    Unavailable,
    /// The statement would have broken a uniqueness constraint of the store.
    Duplicate,
    /// Anything else.
    Other,
}

/// What the store replied to the last action.
#[derive(Debug)]
pub enum Reply<R> {
    /// The rows a statement selected.
    Rows(Vec<R>),
    /// The first row a statement selected, if it selected any.
    Row(Option<R>),
    /// The number a counting statement returned.
    Count(i64),
    /// A write was carried out.
    Done { rows_affected: u64, last_insert_id: i64 },
    /// The statement failed.
    Failed(StoreFailure),
}

/// What the caller is to do next.
#[derive(Debug)]
pub enum Action<R> {
    /// Run the statement and reply with all its rows.
    FetchRows(Statement),
    /// Run the statement and reply with its first row, if any.
    FetchRow(Lookup),
    /// Run the counting statement and reply with its number.
    FetchCount(Statement),
    /// Carry out the write and reply with what it did.
    Execute(Statement),
    /// Nothing more: the operation has ended.
    Finish(Result<Outcome<R>, RepoError>),
}

impl<R> Action<R> {
    /// Whether the action changes the store.
    pub open spec fn writes(&self) -> bool {
        self is Execute
    }
}

/// How the row just written is read back: by the identity generated here, or by
/// the one the store assigned.
#[derive(Debug)]
pub struct Reread {
    pub sql: String,
    pub key: Option<SqlValue>,
}

/// Where an operation stands: what was asked of the store, and what is left to
/// do once it has replied.
#[derive(Debug)]
pub enum Stage<R> {
    /// A listing waits for its page; the count comes next.
    Page { count: Statement, limit: i64, offset: i64 },
    /// A listing waits for its count.
    Total { rows: Vec<R>, limit: i64, offset: i64 },
    /// A lookup waits for its row.
    Single { missing: RepoError },
    /// A column lookup waits for its rows.
    Many,
    /// A create waits to learn whether the natural key is taken.
    Vacancy { taken: RepoError, insert: Statement, readback: Reread },
    /// A create waits for its insert; `clash` reports an insert that the store
    /// refused as a duplicate.
    Inserting { readback: Reread, clash: RepoError },
    /// An update waits to learn whether the row exists.
    Presence { missing: RepoError, update: Result<Statement, RepoError>, reread: Lookup },
    /// An update waits for its write.
    Updating { reread: Lookup },
    /// A create or an update waits for the row it wrote.
    Reading { created: bool },
    /// A delete waits for its write.
    Deleting { missing: RepoError },
    /// The operation has ended.
    Finished,
}

/// One turn of the conversation: the new stage and the next action.
#[derive(Debug)]
pub struct Turn<R> {
    pub stage: Stage<R>,
    pub action: Action<R>,
}

/// The turn that ends an operation.
pub open spec fn ended<R>(result: Result<Outcome<R>, RepoError>) -> Turn<R> {
    Turn { stage: Stage::Finished, action: Action::Finish(result) }
}

/// The error that reports a failure of the store.
pub open spec fn store_error(failure: StoreFailure) -> RepoError {
    match failure {
        StoreFailure::Unavailable => RepoError::ServiceUnavailable,
        StoreFailure::Duplicate => RepoError::StoreError,
        StoreFailure::Other => RepoError::StoreError,
    }
}

/// The lookup that reads back the row just inserted.
pub open spec fn reread_lookup(reread: Reread, last_insert_id: i64) -> Lookup {
    Lookup {
        sql: reread.sql,
        key: match reread.key {
            Some(key) => key,
            None => SqlValue::Int(last_insert_id),
        },
    }
}

/// The turn taken at `stage` when the store replies `reply`.
///
/// A failed statement ends the operation with the store's failure. A listing
/// fetches its page, then its count. A lookup that finds no row ends with its
/// not-found error. A create whose natural key is taken ends with its conflict
/// error, without writing; otherwise it inserts and reads the row back, and an
/// insert that the store refuses as a duplicate ends with the conflict error
/// too, so that of two creates racing for one key at most one succeeds where
/// the store holds the key unique. An
/// update of a row that does not exist ends with its not-found error, one whose
/// patch was rejected ends with that rejection, both without writing;
/// otherwise it writes and reads the row back. A delete that affected no row
/// ends with its not-found error. A reply that does not answer the action
/// taken ends the operation with a store error.
pub open spec fn transition<R>(stage: Stage<R>, reply: Reply<R>) -> Turn<R> {
    match (stage, reply) {
        (Stage::Inserting { readback, clash }, Reply::Failed(StoreFailure::Duplicate)) => ended(
            Err(clash),
        ),
        (_, Reply::Failed(failure)) => ended(Err(store_error(failure))),
        (Stage::Page { count, limit, offset }, Reply::Rows(rows)) => Turn {
            stage: Stage::Total { rows, limit, offset },
            action: Action::FetchCount(count),
        },
        (Stage::Total { rows, limit, offset }, Reply::Count(total)) => ended(
            Ok(Outcome::Page { rows, total, limit, offset }),
        ),
        (Stage::Single { missing }, Reply::Row(Some(row))) => ended(Ok(Outcome::Item(row))),
        (Stage::Single { missing }, Reply::Row(None)) => ended(Err(missing)),
        (Stage::Many, Reply::Rows(rows)) => ended(Ok(Outcome::Items(rows))),
        (Stage::Vacancy { taken, insert, readback }, Reply::Count(n)) => if n > 0 {
            ended(Err(taken))
        } else {
            Turn {
                stage: Stage::Inserting { readback, clash: taken },
                action: Action::Execute(insert),
            }
        },
        (Stage::Inserting { readback, clash }, Reply::Done { rows_affected, last_insert_id }) => Turn {
            stage: Stage::Reading { created: true },
            action: Action::FetchRow(reread_lookup(readback, last_insert_id)),
        },
        (Stage::Presence { missing, update, reread }, Reply::Count(n)) => if n == 0 {
            ended(Err(missing))
        } else {
            match update {
                Err(rejection) => ended(Err(rejection)),
                Ok(statement) => Turn {
                    stage: Stage::Updating { reread },
                    action: Action::Execute(statement),
                },
            }
        },
        (Stage::Updating { reread }, Reply::Done { rows_affected, last_insert_id }) => Turn {
            stage: Stage::Reading { created: false },
            action: Action::FetchRow(reread),
        },
        (Stage::Reading { created }, Reply::Row(Some(row))) => if created {
            ended(Ok(Outcome::Created(row)))
        } else {
            ended(Ok(Outcome::Updated(row)))
        },
        (Stage::Deleting { missing }, Reply::Done { rows_affected, last_insert_id }) => if rows_affected
            == 0 {
            ended(Err(missing))
        } else {
            ended(Ok(Outcome::Deleted))
        },
        _ => ended(Err(RepoError::StoreError)),
    }
}

fn end<R>(result: Result<Outcome<R>, RepoError>) -> (turn: Turn<R>)
    ensures
        turn == ended(result),
{
    Turn { stage: Stage::Finished, action: Action::Finish(result) }
}

/// Takes the next turn of an operation, given the store's reply to its last
/// action.
pub fn step<R>(stage: Stage<R>, reply: Reply<R>) -> (turn: Turn<R>)
    ensures
        turn == transition(stage, reply),
{
    match (stage, reply) {
        (Stage::Inserting { readback, clash }, Reply::Failed(StoreFailure::Duplicate)) => end(
            Err(clash),
        ),
        (_, Reply::Failed(failure)) => match failure {
            StoreFailure::Unavailable => end(Err(RepoError::ServiceUnavailable)),
            StoreFailure::Duplicate => end(Err(RepoError::StoreError)),
            StoreFailure::Other => end(Err(RepoError::StoreError)),
        },
        (Stage::Page { count, limit, offset }, Reply::Rows(rows)) => Turn {
            stage: Stage::Total { rows, limit, offset },
            action: Action::FetchCount(count),
        },
        (Stage::Total { rows, limit, offset }, Reply::Count(total)) => end(
            Ok(Outcome::Page { rows, total, limit, offset }),
        ),
        (Stage::Single { missing }, Reply::Row(Some(row))) => end(Ok(Outcome::Item(row))),
        (Stage::Single { missing }, Reply::Row(None)) => end(Err(missing)),
        (Stage::Many, Reply::Rows(rows)) => end(Ok(Outcome::Items(rows))),
        (Stage::Vacancy { taken, insert, readback }, Reply::Count(n)) => {
            if n > 0 {
                end(Err(taken))
            } else {
                Turn {
                    stage: Stage::Inserting { readback, clash: taken },
                    action: Action::Execute(insert),
                }
            }
        },
        (Stage::Inserting { readback, clash }, Reply::Done { rows_affected, last_insert_id }) => {
            let key = match readback.key {
                Some(key) => key,
                None => SqlValue::Int(last_insert_id),
            };
            Turn {
                stage: Stage::Reading { created: true },
                action: Action::FetchRow(Lookup { sql: readback.sql, key }),
            }
        },
        (Stage::Presence { missing, update, reread }, Reply::Count(n)) => {
            if n == 0 {
                end(Err(missing))
            } else {
                match update {
                    Err(rejection) => end(Err(rejection)),
                    Ok(statement) => Turn {
                        stage: Stage::Updating { reread },
                        action: Action::Execute(statement),
                    },
                }
            }
        },
        (Stage::Updating { reread }, Reply::Done { rows_affected, last_insert_id }) => Turn {
            stage: Stage::Reading { created: false },
            action: Action::FetchRow(reread),
        },
        (Stage::Reading { created }, Reply::Row(Some(row))) => {
            if created {
                end(Ok(Outcome::Created(row)))
            } else {
                end(Ok(Outcome::Updated(row)))
            }
        },
        (Stage::Deleting { missing }, Reply::Done { rows_affected, last_insert_id }) => {
            if rows_affected == 0 {
                end(Err(missing))
            } else {
                end(Ok(Outcome::Deleted))
            }
        },
        _ => end(Err(RepoError::StoreError)),
    }
}

/// Message of a lookup by a column outside the allow-list.
pub const UNKNOWN_LOOKUP_MESSAGE: &'static str = "不支援的查詢欄位";

/// Message of a create that gives no value for the natural key.
pub const MISSING_KEY_MESSAGE: &'static str = "缺少唯一鍵欄位";

/// How a column is named in the message of a lookup that found no row: the
/// identity as `ID`, any other column by its own name.
pub open spec fn shown_column(schema: Schema, column: Seq<char>) -> Seq<char> {
    if column == schema.key_column {
        "ID"@
    } else {
        column
    }
}

/// Message of a lookup that found no row.
pub open spec fn not_found_message(schema: Schema, column: Seq<char>, value: Param) -> Seq<char> {
    "找不到 "@ + shown_column(schema, column) + " 為 "@ + display_text(value) + " 的"@ + schema.noun
}

/// Message of a create whose natural key is taken.
pub open spec fn conflict_message(column: Seq<char>, value: Param) -> Seq<char> {
    column + " '"@ + display_text(value) + "' 已存在"@
}

/// Whether rows may be looked up by `column`: by the identity, or by a column
/// of the entity's allow-list.
pub open spec fn lookup_allowed(schema: Schema, column: Seq<char>) -> bool {
    column == schema.key_column || schema.lookup_columns.contains(column)
}

/// The value that the first assignment to `column` gives it, if there is one.
pub open spec fn value_of(list: Seq<Assigned>, column: Seq<char>) -> Option<Param>
    decreases list.len(),
{
    if list.len() == 0 {
        None
    } else if list[0].column == column {
        Some(list[0].value)
    } else {
        value_of(list.drop_first(), column)
    }
}

/// The statement that selects by the value of one column.
pub open spec fn by_column(sql: Seq<char>, value: Param) -> StatementView {
    StatementView { sql, params: seq![value] }
}

/// Whether `turn` ends the operation at once with `failure`.
pub open spec fn rejected<R>(turn: Turn<R>, failure: Failure) -> bool {
    &&& turn.stage is Finished
    &&& turn.action matches Action::Finish(Err(e)) && e@ == failure
}

/// Whether `error` reports that no row has `value` in `column`.
pub open spec fn reports_missing(error: RepoError, schema: Schema, column: Seq<char>, value: Param) -> bool {
    error@ == Failure::NotFound(not_found_message(schema, column, value))
}

/// The first turn of a listing: a rejected query ends at once, without touching
/// the store; otherwise the page is fetched, and the count statement and the
/// page bounds are kept for the next turn.
pub open spec fn list_begins<R>(schema: Schema, query: Listing, turn: Turn<R>) -> bool {
    match list_plan(schema, query) {
        Err(failure) => rejected(turn, failure),
        Ok(plan) => {
            &&& turn.action matches Action::FetchRows(fetch) && fetch@ == plan.fetch
            &&& turn.stage matches Stage::Page { count, limit, offset } && count@ == plan.count
                && limit == plan.limit && offset == plan.offset
        },
    }
}

/// The first turn of a lookup of one row: rejected when the column is not
/// allowed, else the first row whose `column` equals `value` is fetched.
pub open spec fn get_begins<R>(schema: Schema, column: Seq<char>, value: Param, turn: Turn<R>) -> bool {
    if !lookup_allowed(schema, column) {
        rejected(turn, Failure::ValidationError(UNKNOWN_LOOKUP_MESSAGE@))
    } else {
        &&& turn.action matches Action::FetchRow(lookup) && lookup@ == by_column(
            select_by_sql(schema.select_head, column),
            value,
        )
        &&& turn.stage matches Stage::Single { missing } && reports_missing(
            missing,
            schema,
            column,
            value,
        )
    }
}

/// The first turn of a lookup of all rows: rejected when the column is not
/// allowed, else all rows whose `column` equals `value` are fetched.
pub open spec fn get_all_begins<R>(schema: Schema, column: Seq<char>, value: Param, turn: Turn<R>) -> bool {
    if !lookup_allowed(schema, column) {
        rejected(turn, Failure::ValidationError(UNKNOWN_LOOKUP_MESSAGE@))
    } else {
        &&& turn.action matches Action::FetchRows(fetch) && fetch@ == by_column(
            select_by_sql(schema.select_head, column),
            value,
        )
        &&& turn.stage is Many
    }
}

/// Whether `reread` reads a row back by its identity: the generated one where
/// the entity generates it, else the one the store will assign.
pub open spec fn rereads(reread: Reread, schema: Schema, fresh_key: Seq<char>) -> bool {
    &&& reread.sql@ == select_by_sql(schema.select_head, schema.key_column)
    &&& if schema.generated_key {
        reread.key matches Some(key) && key@ == Param::Text(fresh_key)
    } else {
        reread.key is None
    }
}

/// The first turn of a create. A rejected insert, or a missing natural key,
/// ends at once. An entity with a natural key first counts the rows that hold
/// the key's value, keeping the insert for later; any other inserts at once,
/// and reports an insert refused as a duplicate as a failure of the store.
pub open spec fn create_begins<R>(
    schema: Schema,
    values: Seq<Assigned>,
    now: Seq<char>,
    fresh_key: Seq<char>,
    turn: Turn<R>,
) -> bool {
    match insert_plan(schema, fresh_key, values, now) {
        Err(failure) => rejected(turn, failure),
        Ok(plan) => match schema.natural_key {
            None => {
                &&& turn.action matches Action::Execute(insert) && insert@ == plan
                &&& turn.stage matches Stage::Inserting { readback, clash } && rereads(
                    readback,
                    schema,
                    fresh_key,
                ) && clash@ == Failure::StoreError
            },
            Some(column) => match value_of(values, column) {
                None => rejected(turn, Failure::ValidationError(MISSING_KEY_MESSAGE@)),
                Some(value) => {
                    &&& turn.action matches Action::FetchCount(count) && count@ == by_column(
                        count_by_sql(schema.table, column),
                        value,
                    )
                    &&& turn.stage matches Stage::Vacancy { taken, insert, readback } && taken@
                        == Failure::Conflict(conflict_message(column, value)) && insert@ == plan
                        && rereads(readback, schema, fresh_key)
                },
            },
        },
    }
}

/// The first turn of an update: the rows with the identity are counted, and the
/// planned write, or its rejection, is kept for the next turn.
pub open spec fn update_begins<R>(
    schema: Schema,
    id: Param,
    patch: Seq<Assigned>,
    now: Seq<char>,
    turn: Turn<R>,
) -> bool {
    &&& turn.action matches Action::FetchCount(count) && count@ == by_column(
        count_by_sql(schema.table, schema.key_column),
        id,
    )
    &&& turn.stage matches Stage::Presence { missing, update, reread } && reports_missing(
        missing,
        schema,
        schema.key_column,
        id,
    ) && crate::patch::planned(update, update_plan(schema, id, patch, now)) && reread@
        == by_column(select_by_sql(schema.select_head, schema.key_column), id)
}

/// The first turn of a delete: the row with the identity is deleted.
pub open spec fn delete_begins<R>(schema: Schema, id: Param, turn: Turn<R>) -> bool {
    &&& turn.action matches Action::Execute(delete) && delete@ == by_column(
        delete_by_sql(schema.table, schema.key_column),
        id,
    )
    &&& turn.stage matches Stage::Deleting { missing } && reports_missing(
        missing,
        schema,
        schema.key_column,
        id,
    )
}

fn missing_error(desc: &EntityDescriptor, column: &str, value: &SqlValue) -> (error: RepoError)
    ensures
        reports_missing(error, desc@, column@, value@),
{
    let mut message = String::from_str("找不到 ");
    if same_text(column, desc.key_column) {
        message.append("ID");
    } else {
        message.append(column);
    }
    message.append(" 為 ");
    let shown = value.display();
    message.append(shown.as_str());
    message.append(" 的");
    message.append(desc.noun);
    RepoError::NotFound(message)
}

fn taken_error(column: &str, value: &SqlValue) -> (error: RepoError)
    ensures
        error@ == Failure::Conflict(conflict_message(column@, value@)),
{
    let mut message = String::from_str(column);
    message.append(" '");
    let shown = value.display();
    message.append(shown.as_str());
    message.append("' 已存在");
    RepoError::Conflict(message)
}

fn allowed_lookup(desc: &EntityDescriptor, column: &str) -> (r: bool)
    ensures
        r == lookup_allowed(desc@, column@),
{
    same_text(column, desc.key_column) || find_name(&desc.lookup_columns, column).is_some()
}

/// The value that the first assignment to `column` gives it, if there is one.
pub fn find_value(list: &Vec<Assignment>, column: &str) -> (r: Option<SqlValue>)
    ensures
        match r {
            Some(value) => value_of(assigned(list@), column@) == Some(value@),
            None => value_of(assigned(list@), column@) is None,
        },
{
    let ghost all = assigned(list@);
    let mut i: usize = 0;
    assert(all.skip(0) =~= all);
    while i < list.len()
        invariant
            i <= list.len(),
            all == assigned(list@),
            value_of(all, column@) == value_of(all.skip(i as int), column@),
        decreases list.len() - i,
    {
        let assignment = &list[i];
        proof {
            assert(all.skip(i as int)[0] == all[i as int]);
            assert(all.skip(i as int).drop_first() =~= all.skip(i + 1));
            assert(all[i as int] == list@[i as int]@);
        }
        if same_text(assignment.column, column) {
            return Some(assignment.value.clone());
        }
        i += 1;
    }
    assert(all.skip(list.len() as int).len() == 0);
    None
}

/// Begins a listing.
pub fn begin_list<R>(desc: &EntityDescriptor, query: &ListQuery) -> (turn: Turn<R>)
    ensures
        list_begins(desc@, query@, turn),
{
    match plan_list(desc, query) {
        Err(e) => end(Err(e)),
        Ok(plan) => Turn {
            stage: Stage::Page { count: plan.count, limit: plan.limit, offset: plan.offset },
            action: Action::FetchRows(plan.fetch),
        },
    }
}

/// Begins the lookup of the first row whose `column` equals `value`.
pub fn begin_get<R>(desc: &EntityDescriptor, column: &str, value: SqlValue) -> (turn: Turn<R>)
    ensures
        get_begins(desc@, column@, value@, turn),
{
    if !allowed_lookup(desc, column) {
        return end(Err(RepoError::ValidationError(String::from_str(UNKNOWN_LOOKUP_MESSAGE))));
    }
    let missing = missing_error(desc, column, &value);
    Turn {
        stage: Stage::Single { missing },
        action: Action::FetchRow(select_by(desc.select_head, column, value)),
    }
}

/// Begins the lookup of all rows whose `column` equals `value`.
pub fn begin_get_all<R>(desc: &EntityDescriptor, column: &str, value: SqlValue) -> (turn: Turn<R>)
    ensures
        get_all_begins(desc@, column@, value@, turn),
{
    if !allowed_lookup(desc, column) {
        return end(Err(RepoError::ValidationError(String::from_str(UNKNOWN_LOOKUP_MESSAGE))));
    }
    let sql = select_by_text(desc.select_head, column);
    let bound = vec![value];
    assert(params(bound@) =~= seq![value@]);
    Turn { stage: Stage::Many, action: Action::FetchRows(Statement { sql, params: bound }) }
}

/// Begins the create of a row with the given values, stamped with `now`;
/// `fresh_key` becomes its identity where the entity generates identities.
pub fn begin_create<R>(
    desc: &EntityDescriptor,
    values: &Vec<Assignment>,
    now: &str,
    fresh_key: &str,
) -> (turn: Turn<R>)
    ensures
        create_begins(desc@, assigned(values@), now@, fresh_key@, turn),
{
    let insert = match plan_insert(desc, fresh_key, values, now) {
        Err(e) => {
            return end(Err(e));
        },
        Ok(statement) => statement,
    };
    let known = if desc.generated_key {
        Some(SqlValue::text(fresh_key))
    } else {
        None
    };
    let readback = Reread { sql: select_by_text(desc.select_head, desc.key_column), key: known };
    match desc.natural_key {
        None => Turn {
            stage: Stage::Inserting { readback, clash: RepoError::StoreError },
            action: Action::Execute(insert),
        },
        Some(column) => match find_value(values, column) {
            None => end(Err(RepoError::ValidationError(String::from_str(MISSING_KEY_MESSAGE)))),
            Some(value) => {
                let taken = taken_error(column, &value);
                Turn {
                    stage: Stage::Vacancy { taken, insert, readback },
                    action: Action::FetchCount(count_by(desc.table, column, value)),
                }
            },
        },
    }
}

/// Begins the update of the row with identity `id`, stamped with `now`.
pub fn begin_update<R>(desc: &EntityDescriptor, id: SqlValue, patch: &Vec<Assignment>, now: &str) -> (turn:
    Turn<R>)
    ensures
        update_begins(desc@, id@, assigned(patch@), now@, turn),
{
    let missing = missing_error(desc, desc.key_column, &id);
    let update = plan_update(desc, id.clone(), patch, now);
    let reread = select_by(desc.select_head, desc.key_column, id.clone());
    Turn {
        stage: Stage::Presence { missing, update, reread },
        action: Action::FetchCount(count_by(desc.table, desc.key_column, id)),
    }
}

/// Begins the delete of the row with identity `id`.
pub fn begin_delete<R>(desc: &EntityDescriptor, id: SqlValue) -> (turn: Turn<R>)
    ensures
        delete_begins(desc@, id@, turn),
{
    let missing = missing_error(desc, desc.key_column, &id);
    Turn {
        stage: Stage::Deleting { missing },
        action: Action::Execute(delete_by(desc.table, desc.key_column, id)),
    }
}

/// Begins a create stamped with the current time, under a freshly generated
/// identity where the entity generates identities. Whatever the clock and the
/// random source gave, the stamp is a time in UTC, the identity has the shape
/// of a generated one, and the turn is the one [`begin_create`] takes for them.
pub fn begin_create_now<R>(desc: &EntityDescriptor, values: &Vec<Assignment>) -> (turn: Turn<R>)
    ensures
        exists|now: Seq<char>, fresh_key: Seq<char>|
            {
                &&& is_utc_stamp(now)
                &&& desc@.generated_key ==> is_identity(fresh_key)
                &&& #[trigger] create_begins(desc@, assigned(values@), now, fresh_key, turn)
            },
{
    let now = current_timestamp();
    let fresh_key = if desc.generated_key {
        fresh_identity()
    } else {
        String::new()
    };
    let turn = begin_create(desc, values, now.as_str(), fresh_key.as_str());
    assert(is_utc_stamp(now@) && create_begins(desc@, assigned(values@), now@, fresh_key@, turn));
    turn
}

/// Begins an update stamped with the current time. Whatever the clock gave,
/// the stamp is a time in UTC and the turn is the one [`begin_update`] takes for
/// it.
pub fn begin_update_now<R>(desc: &EntityDescriptor, id: SqlValue, patch: &Vec<Assignment>) -> (turn: Turn<
    R,
>)
    ensures
        exists|now: Seq<char>|
            is_utc_stamp(now) && #[trigger] update_begins(desc@, id@, assigned(patch@), now, turn),
{
    let now = current_timestamp();
    let turn = begin_update(desc, id, patch, now.as_str());
    assert(is_utc_stamp(now@) && update_begins(desc@, id@, assigned(patch@), now@, turn));
    turn
}

/// A lookup, an update and a delete by the identity report a missing row in
/// the same words, which name the identity as `ID`; a lookup by another column
/// names that column.
pub proof fn missing_row_is_reported_by_id(schema: Schema, column: Seq<char>, value: Param)
    ensures
        not_found_message(schema, schema.key_column, value) == "找不到 ID 為 "@ + display_text(value)
            + " 的"@ + schema.noun,
        column != schema.key_column ==> not_found_message(schema, column, value) == "找不到 "@
            + column + " 為 "@ + display_text(value) + " 的"@ + schema.noun,
{
    reveal_strlit("找不到 ");
    reveal_strlit("ID");
    reveal_strlit("找不到 ID 為 ");
    reveal_strlit(" 為 ");
    assert("找不到 "@ + "ID"@ + " 為 "@ =~= "找不到 ID 為 "@);
    assert(not_found_message(schema, schema.key_column, value) =~= "找不到 ID 為 "@ + display_text(
        value,
    ) + " 的"@ + schema.noun);
}

/// An update with an empty patch performs no write: its first action only
/// counts, and whatever the store replies the operation ends there. It ends
/// with the validation error of an empty patch whenever the store reports that
/// the row exists, and with the not-found error when it reports that it does
/// not.
pub proof fn empty_patch_ends_unwritten<R>(
    schema: Schema,
    id: Param,
    patch: Seq<Assigned>,
    now: Seq<char>,
    turn: Turn<R>,
    reply: Reply<R>,
)
    requires
        patch.len() == 0,
        update_begins(schema, id, patch, now, turn),
    ensures
        !turn.action.writes(),
        transition(turn.stage, reply).stage is Finished,
        transition(turn.stage, reply).action is Finish,
        reply matches Reply::Count(n) ==> (n != 0 ==> rejected(
            transition(turn.stage, reply),
            Failure::ValidationError(crate::patch::EMPTY_PATCH_MESSAGE@),
        )),
        reply matches Reply::Count(n) ==> (n == 0 ==> rejected(
            transition(turn.stage, reply),
            Failure::NotFound(not_found_message(schema, schema.key_column, id)),
        )),
{
}

/// An update of a row that exists, with a patch that is accepted, writes the
/// planned statement and then reads the row back by its identity; the row the
/// store hands back is the operation's result.
pub proof fn accepted_update_writes_then_rereads<R>(
    schema: Schema,
    id: Param,
    patch: Seq<Assigned>,
    now: Seq<char>,
    turn: Turn<R>,
    n: i64,
    rows_affected: u64,
    last_insert_id: i64,
    row: R,
)
    requires
        update_begins(schema, id, patch, now, turn),
        update_plan(schema, id, patch, now) is Ok,
        n != 0,
    ensures
        ({
            let second = transition(turn.stage, Reply::Count(n));
            let third = transition(second.stage, Reply::Done { rows_affected, last_insert_id });
            let last = transition(third.stage, Reply::Row(Some(row)));
            &&& second.action matches Action::Execute(write) && write@ == update_plan(
                schema,
                id,
                patch,
                now,
            )->Ok_0
            &&& third.action matches Action::FetchRow(lookup) && lookup@ == by_column(
                select_by_sql(schema.select_head, schema.key_column),
                id,
            )
            &&& last == ended(Ok(Outcome::Updated(row)))
        }),
{
}

/// A delete reports a missing row exactly when the store affected none:
/// then it ends with the not-found error, otherwise with success.
pub proof fn delete_of_absent_row_is_not_found<R>(
    schema: Schema,
    id: Param,
    turn: Turn<R>,
    rows_affected: u64,
    last_insert_id: i64,
)
    requires
        delete_begins(schema, id, turn),
    ensures
        rows_affected == 0 ==> rejected(
            transition(turn.stage, Reply::Done { rows_affected, last_insert_id }),
            Failure::NotFound(not_found_message(schema, schema.key_column, id)),
        ),
        rows_affected != 0 ==> transition(
            turn.stage,
            Reply::Done { rows_affected, last_insert_id },
        ) == ended::<R>(Ok(Outcome::Deleted)),
{
}

/// A lookup by identity for which the store has no row ends with the not-found
/// error; one for which it has a row ends with that row.
pub proof fn lookup_finds_row_or_not_found<R>(schema: Schema, id: Param, turn: Turn<R>, row: Option<R>)
    requires
        get_begins(schema, schema.key_column, id, turn),
    ensures
        !turn.action.writes(),
        row is None ==> rejected(
            transition(turn.stage, Reply::Row(row)),
            Failure::NotFound(not_found_message(schema, schema.key_column, id)),
        ),
        row matches Some(found) ==> transition(turn.stage, Reply::Row(row)) == ended(
            Ok(Outcome::Item(found)),
        ),
{
}

/// Natural-key conflict: a create whose natural key the store reports as taken
/// ends with the conflict error and performs no write.
pub proof fn taken_natural_key_is_conflict_unwritten<R>(
    schema: Schema,
    values: Seq<Assigned>,
    now: Seq<char>,
    fresh_key: Seq<char>,
    turn: Turn<R>,
    n: i64,
)
    requires
        create_begins(schema, values, now, fresh_key, turn),
        insert_plan(schema, fresh_key, values, now) is Ok,
        schema.natural_key is Some,
        value_of(values, schema.natural_key->0) is Some,
        n > 0,
    ensures
        !turn.action.writes(),
        rejected(
            transition(turn.stage, Reply::Count(n)),
            Failure::Conflict(
                conflict_message(
                    schema.natural_key->0,
                    value_of(values, schema.natural_key->0)->0,
                ),
            ),
        ),
{
}

/// Natural-key race: where the count found the key free and the store then
/// refuses the insert as a duplicate, the create ends with the conflict error.
pub proof fn refused_duplicate_is_conflict<R>(
    schema: Schema,
    values: Seq<Assigned>,
    now: Seq<char>,
    fresh_key: Seq<char>,
    turn: Turn<R>,
    n: i64,
)
    requires
        create_begins(schema, values, now, fresh_key, turn),
        insert_plan(schema, fresh_key, values, now) is Ok,
        schema.natural_key is Some,
        value_of(values, schema.natural_key->0) is Some,
        n <= 0,
    ensures
        ({
            let write = transition(turn.stage, Reply::Count(n));
            &&& write.action.writes()
            &&& rejected(
                transition(write.stage, Reply::Failed(StoreFailure::Duplicate)),
                Failure::Conflict(
                    conflict_message(
                        schema.natural_key->0,
                        value_of(values, schema.natural_key->0)->0,
                    ),
                ),
            )
        }),
{
}

/// A create whose natural key is free, or that has none, inserts the planned
/// row and reads it back by its identity: the generated one, or the one the
/// store assigned. The row the store hands back is the operation's result.
pub proof fn create_inserts_then_rereads<R>(
    schema: Schema,
    values: Seq<Assigned>,
    now: Seq<char>,
    fresh_key: Seq<char>,
    turn: Turn<R>,
    n: i64,
    rows_affected: u64,
    last_insert_id: i64,
    row: R,
)
    requires
        create_begins(schema, values, now, fresh_key, turn),
        insert_plan(schema, fresh_key, values, now) is Ok,
        schema.natural_key matches Some(column) ==> value_of(values, column) is Some,
        n <= 0,
    ensures
        ({
            let write = if schema.natural_key is Some {
                transition(turn.stage, Reply::Count(n))
            } else {
                turn
            };
            let read = transition(write.stage, Reply::Done { rows_affected, last_insert_id });
            let last = transition(read.stage, Reply::Row(Some(row)));
            &&& write.action matches Action::Execute(insert) && insert@ == insert_plan(
                schema,
                fresh_key,
                values,
                now,
            )->Ok_0
            &&& read.action matches Action::FetchRow(lookup) && lookup@ == by_column(
                select_by_sql(schema.select_head, schema.key_column),
                if schema.generated_key {
                    Param::Text(fresh_key)
                } else {
                    Param::Int(last_insert_id as int)
                },
            )
            &&& last == ended(Ok(Outcome::Created(row)))
        }),
{
}

/// A listing that is accepted fetches its page, then counts, and reports the
/// rows of the page together with the count the store gave and the page bounds
/// the statements used.
pub proof fn listing_reports_page_and_count<R>(
    schema: Schema,
    query: Listing,
    turn: Turn<R>,
    rows: Vec<R>,
    total: i64,
)
    requires
        list_begins(schema, query, turn),
        list_plan(schema, query) is Ok,
    ensures
        ({
            let plan = list_plan(schema, query)->Ok_0;
            let second = transition(turn.stage, Reply::Rows(rows));
            let last = transition(second.stage, Reply::Count(total));
            &&& turn.action matches Action::FetchRows(fetch) && fetch@ == plan.fetch
            &&& second.action matches Action::FetchCount(count) && count@ == plan.count
            &&& last == ended(
                Ok(Outcome::Page { rows, total, limit: plan.limit, offset: plan.offset }),
            )
        }),
{
}

/// The number of replies after which an operation at `stage` has ended at the
/// latest.
pub open spec fn replies_left<R>(stage: Stage<R>) -> nat {
    match stage {
        Stage::Page { .. } => 2,
        Stage::Total { .. } => 1,
        Stage::Single { .. } => 1,
        Stage::Many => 1,
        Stage::Vacancy { .. } => 3,
        Stage::Inserting { .. } => 2,
        Stage::Presence { .. } => 3,
        Stage::Updating { .. } => 2,
        Stage::Reading { .. } => 1,
        Stage::Deleting { .. } => 1,
        Stage::Finished => 0,
    }
}

/// Whether an operation at `stage` has yet to decide on its one write.
pub open spec fn may_write<R>(stage: Stage<R>) -> bool {
    stage is Vacancy || stage is Presence
}

/// Whether `stage` belongs to an operation that only reads.
pub open spec fn reading<R>(stage: Stage<R>) -> bool {
    stage is Page || stage is Total || stage is Single || stage is Many || stage is Finished
}

/// Every operation ends: each reply brings it strictly closer to its end, it
/// has ended exactly when it says so, and it never asks the store the same
/// thing again. A failed statement ends it at once: nothing is retried.
pub proof fn every_reply_brings_the_end_closer<R>(stage: Stage<R>, reply: Reply<R>)
    ensures
        !(stage is Finished) ==> replies_left(transition(stage, reply).stage) < replies_left(stage),
        transition(stage, reply).action is Finish <==> transition(stage, reply).stage is Finished,
        reply is Failed ==> transition(stage, reply).action matches Action::Finish(Err(_)),
{
}

/// An operation writes at most once: only a create that has learnt that its key
/// is free and an update that has learnt that its row exists go on to write,
/// and no stage that follows can write again.
pub proof fn at_most_one_write<R>(stage: Stage<R>, reply: Reply<R>)
    ensures
        transition(stage, reply).action.writes() ==> may_write(stage),
        !may_write(transition(stage, reply).stage),
{
}

/// Listings and lookups never write, whatever the store replies.
pub proof fn reads_never_write<R>(stage: Stage<R>, reply: Reply<R>)
    requires
        reading(stage),
    ensures
        reading(transition(stage, reply).stage),
        !transition(stage, reply).action.writes(),
{
}

/// Listings and lookups begin at a stage that only reads, with an action that
/// does not write.
pub proof fn reads_begin_reading<R>(
    schema: Schema,
    query: Listing,
    column: Seq<char>,
    value: Param,
    turn: Turn<R>,
)
    requires
        list_begins(schema, query, turn) || get_begins(schema, column, value, turn)
            || get_all_begins(schema, column, value, turn),
    ensures
        reading(turn.stage),
        !turn.action.writes(),
{
}

} // verus!
