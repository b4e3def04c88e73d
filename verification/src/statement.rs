//! Statements with bound parameters, and the pieces of SQL text they are made of.

use vstd::prelude::*;
use vstd::string::StringExecFns;
use crate::descriptor::names;
use crate::value::{params, Param, SqlValue};

verus! {

/// A statement: its text, with one `?` for each bound parameter, in order.
#[derive(Debug, PartialEq, Eq)]
pub struct Statement {
    pub sql: String,
    pub params: Vec<SqlValue>,
}

/// The mathematical content of a [`Statement`].
pub struct StatementView {
    pub sql: Seq<char>,
    pub params: Seq<Param>,
}

impl View for Statement {
    type V = StatementView;

    open spec fn view(&self) -> StatementView {
        StatementView { sql: self.sql@, params: params(self.params@) }
    }
}

/// A statement that selects rows by the value of one column.
#[derive(Debug, PartialEq, Eq)]
pub struct Lookup {
    pub sql: String,
    pub key: SqlValue,
}

impl View for Lookup {
    type V = StatementView;

    open spec fn view(&self) -> StatementView {
        StatementView { sql: self.sql@, params: seq![self.key@] }
    }
}

/// A new value for one column.
#[derive(Debug, PartialEq, Eq)]
pub struct Assignment {
    pub column: &'static str,
    pub value: SqlValue,
}

/// The mathematical content of an [`Assignment`].
pub struct Assigned {
    pub column: Seq<char>,
    pub value: Param,
}

impl View for Assignment {
    type V = Assigned;

    open spec fn view(&self) -> Assigned {
        Assigned { column: self.column@, value: self.value@ }
    }
}

/// The contents of a list of assignments, position by position.
pub open spec fn assigned(list: Seq<Assignment>) -> Seq<Assigned> {
    list.map_values(|a: Assignment| a@)
}

/// The columns that a list of assignments writes, in order.
pub open spec fn assigned_columns(list: Seq<Assigned>) -> Seq<Seq<char>> {
    list.map_values(|a: Assigned| a.column)
}

/// The values that a list of assignments binds, in order.
pub open spec fn assigned_values(list: Seq<Assigned>) -> Seq<Param> {
    list.map_values(|a: Assigned| a.value)
}

/// The names of `columns`, each followed by `suffix`, separated by `", "`.
pub open spec fn joined(columns: Seq<Seq<char>>, suffix: Seq<char>) -> Seq<char>
    decreases columns.len(),
{
    if columns.len() == 0 {
        Seq::empty()
    } else if columns.len() == 1 {
        columns[0] + suffix
    } else {
        joined(columns.drop_last(), suffix) + ", "@ + columns.last() + suffix
    }
}

/// `n` placeholders separated by `", "`.
pub open spec fn marks(n: nat) -> Seq<char>
    decreases n,
{
    if n == 0 {
        Seq::empty()
    } else if n == 1 {
        "?"@
    } else {
        marks((n - 1) as nat) + ", ?"@
    }
}

/// `column = ?`.
pub open spec fn equals_mark(column: Seq<char>) -> Seq<char> {
    column + " = ?"@
}

/// Text of the statement that counts the rows whose `column` equals a parameter.
pub open spec fn count_by_sql(table: Seq<char>, column: Seq<char>) -> Seq<char> {
    "SELECT COUNT(*) FROM "@ + table + " WHERE "@ + equals_mark(column)
}

/// Text of the statement that reads the rows whose `column` equals a parameter.
pub open spec fn select_by_sql(select_head: Seq<char>, column: Seq<char>) -> Seq<char> {
    select_head + " WHERE "@ + equals_mark(column)
}

/// Text of the statement that deletes the rows whose `column` equals a parameter.
pub open spec fn delete_by_sql(table: Seq<char>, column: Seq<char>) -> Seq<char> {
    "DELETE FROM "@ + table + " WHERE "@ + equals_mark(column)
}

/// Text of the statement that sets `columns` in the rows whose `key_column`
/// equals the last parameter.
pub open spec fn update_sql(table: Seq<char>, columns: Seq<Seq<char>>, key_column: Seq<char>) -> Seq<
    char,
> {
    "UPDATE "@ + table + " SET "@ + joined(columns, " = ?"@) + " WHERE "@ + equals_mark(key_column)
}

/// Text of the statement that inserts one row with the given columns.
pub open spec fn insert_sql(table: Seq<char>, columns: Seq<Seq<char>>) -> Seq<char> {
    "INSERT INTO "@ + table + " ("@ + joined(columns, Seq::empty()) + ") VALUES ("@ + marks(
        columns.len(),
    ) + ")"@
}

/// Writes the names of `columns`, each followed by `suffix`, separated by `", "`.
pub fn join_columns(columns: &Vec<&'static str>, suffix: &str) -> (r: String)
    ensures
        r@ == joined(names(columns@), suffix@),
{
    let ghost all = names(columns@);
    let mut out = String::new();
    let mut i: usize = 0;
    while i < columns.len()
        invariant
            i <= columns.len(),
            all == names(columns@),
            out@ == joined(all.take(i as int), suffix@),
        decreases columns.len() - i,
    {
        let ghost before = out@;
        if i > 0 {
            out.append(", ");
        }
        out.append(columns[i]);
        out.append(suffix);
        proof {
            let upto = all.take(i + 1);
            assert(upto.drop_last() =~= all.take(i as int));
            assert(upto.last() == columns@[i as int]@);
            if i == 0 {
                assert(before =~= Seq::<char>::empty());
                assert(out@ =~= upto[0] + suffix@);
            }
        }
        i += 1;
    }
    assert(all.take(columns.len() as int) =~= all);
    out
}

/// Writes `n` placeholders separated by `", "`.
pub fn placeholders(n: usize) -> (r: String)
    ensures
        r@ == marks(n as nat),
{
    let mut out = String::new();
    let mut i: usize = 0;
    while i < n
        invariant
            i <= n,
            out@ == marks(i as nat),
        decreases n - i,
    {
        if i == 0 {
            out.append("?");
            assert(out@ =~= "?"@);
        } else {
            out.append(", ?");
        }
        i += 1;
    }
    out
}

/// Writes `column = ?`.
pub fn equals_placeholder(column: &str) -> (r: String)
    ensures
        r@ == equals_mark(column@),
{
    let mut out = String::from_str(column);
    out.append(" = ?");
    out
}

/// The statement that counts the rows whose `column` equals `value`.
pub fn count_by(table: &str, column: &str, value: SqlValue) -> (r: Statement)
    ensures
        r@ == (StatementView { sql: count_by_sql(table@, column@), params: seq![value@] }),
{
    let mut sql = String::from_str("SELECT COUNT(*) FROM ");
    sql.append(table);
    sql.append(" WHERE ");
    let condition = equals_placeholder(column);
    sql.append(condition.as_str());
    let bound = vec![value];
    assert(params(bound@) =~= seq![value@]);
    Statement { sql, params: bound }
}

/// Writes the text that reads the rows whose `column` equals a parameter.
pub fn select_by_text(select_head: &str, column: &str) -> (sql: String)
    ensures
        sql@ == select_by_sql(select_head@, column@),
{
    let mut sql = String::from_str(select_head);
    sql.append(" WHERE ");
    let condition = equals_placeholder(column);
    sql.append(condition.as_str());
    sql
}

/// The statement that reads the rows whose `column` equals `key`.
pub fn select_by(select_head: &str, column: &str, key: SqlValue) -> (r: Lookup)
    ensures
        r@ == (StatementView { sql: select_by_sql(select_head@, column@), params: seq![key@] }),
        r.key == key,
{
    Lookup { sql: select_by_text(select_head, column), key }
}

/// The statement that deletes the rows whose `column` equals `key`.
pub fn delete_by(table: &str, column: &str, key: SqlValue) -> (r: Statement)
    ensures
        r@ == (StatementView { sql: delete_by_sql(table@, column@), params: seq![key@] }),
{
    let mut sql = String::from_str("DELETE FROM ");
    sql.append(table);
    sql.append(" WHERE ");
    let condition = equals_placeholder(column);
    sql.append(condition.as_str());
    let bound = vec![key];
    assert(params(bound@) =~= seq![key@]);
    Statement { sql, params: bound }
}

} // verus!
