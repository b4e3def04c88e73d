//! Listings: the statement that fetches one page of the rows that match a set
//! of filters, in a chosen order, and the statement that counts all of them.

use vstd::prelude::*;
use vstd::string::{StrSliceExecFns, StringExecFns};
use crate::descriptor::{find_name, EntityDescriptor, Schema};
use crate::error::{Failure, RepoError};
use crate::statement::{Statement, StatementView};
use crate::value::{params, text_of, Param, SqlValue};

verus! {

/// One condition on the rows of a listing.
#[derive(Debug, PartialEq, Eq)]
pub enum Filter {
    /// The column equals the value exactly.
    Equals { column: &'static str, value: SqlValue },
    /// The column's text contains the needle.
    Contains { column: &'static str, needle: String },
}

/// The mathematical content of a [`Filter`].
pub enum Condition {
    Equals { column: Seq<char>, value: Param },
    Contains { column: Seq<char>, needle: Seq<char> },
}

impl View for Filter {
    type V = Condition;

    open spec fn view(&self) -> Condition {
        match self {
            Filter::Equals { column, value } => Condition::Equals { column: column@, value: value@ },
            Filter::Contains { column, needle } => Condition::Contains {
                column: column@,
                needle: needle@,
            },
        }
    }
}

/// The direction of a sort.
#[derive(Clone, Copy, Debug, PartialEq, Eq, Structural)]
pub enum Direction {
    Ascending,
    Descending,
}

/// What a caller asks of a listing: the filters that are present, and the
/// optional sort, limit and offset.
#[derive(Debug)]
pub struct ListQuery {
    pub filters: Vec<Filter>,
    pub sort: Option<String>,
    pub limit: Option<i64>,
    pub offset: Option<i64>,
}

/// The mathematical content of a [`ListQuery`].
pub struct Listing {
    pub filters: Seq<Condition>,
    pub sort: Option<Seq<char>>,
    pub limit: Option<i64>,
    pub offset: Option<i64>,
}

/// The contents of a list of filters, position by position.
pub open spec fn conditions(filters: Seq<Filter>) -> Seq<Condition> {
    filters.map_values(|f: Filter| f@)
}

impl View for ListQuery {
    type V = Listing;

    open spec fn view(&self) -> Listing {
        Listing {
            filters: conditions(self.filters@),
            sort: text_of(self.sort),
            limit: self.limit,
            offset: self.offset,
        }
    }
}

/// The two statements of a listing, and the page bounds they use.
#[derive(Debug)]
pub struct ListPlan {
    /// Fetches the page.
    pub fetch: Statement,
    /// Counts the rows that match the same filters, whatever the page.
    pub count: Statement,
    pub limit: i64,
    pub offset: i64,
}

/// The mathematical content of a [`ListPlan`].
pub struct ListPlanView {
    pub fetch: StatementView,
    pub count: StatementView,
    pub limit: i64,
    pub offset: i64,
}

impl View for ListPlan {
    type V = ListPlanView;

    open spec fn view(&self) -> ListPlanView {
        ListPlanView {
            fetch: self.fetch@,
            count: self.count@,
            limit: self.limit,
            offset: self.offset,
        }
    }
}

/// Page size when the caller names none.
pub const DEFAULT_LIMIT: i64 = 100;

/// Largest page size served; a larger request is cut down to it.
pub const MAX_LIMIT: i64 = 1000;

/// Message of a filter on a column outside the allow-list.
pub const UNKNOWN_FILTER_MESSAGE: &'static str = "不支援的篩選欄位";

/// Message of a sort by a column outside the allow-list.
pub const UNKNOWN_SORT_MESSAGE: &'static str = "不支援的排序欄位";

/// Message of a negative limit.
pub const NEGATIVE_LIMIT_MESSAGE: &'static str = "limit 不可為負數";

/// Message of a negative offset.
pub const NEGATIVE_OFFSET_MESSAGE: &'static str = "offset 不可為負數";

/// The column a condition tests.
pub open spec fn condition_column(c: Condition) -> Seq<char> {
    match c {
        Condition::Equals { column, .. } => column,
        Condition::Contains { column, .. } => column,
    }
}

/// The clause one condition contributes.
pub open spec fn condition_sql(c: Condition) -> Seq<char> {
    match c {
        Condition::Equals { column, .. } => " AND "@ + column + " = ?"@,
        Condition::Contains { column, .. } => " AND "@ + column + " LIKE ?"@,
    }
}

/// The parameter one condition binds: the value itself, or the needle between
/// wildcards for a substring match.
pub open spec fn condition_param(c: Condition) -> Param {
    match c {
        Condition::Equals { value, .. } => value,
        Condition::Contains { needle, .. } => Param::Text("%"@ + needle + "%"@),
    }
}

/// The clauses of all conditions, in order: one per filter that is present.
pub open spec fn where_sql(filters: Seq<Condition>) -> Seq<char>
    decreases filters.len(),
{
    if filters.len() == 0 {
        Seq::empty()
    } else {
        where_sql(filters.drop_last()) + condition_sql(filters.last())
    }
}

/// The parameters of all conditions, in order.
pub open spec fn where_params(filters: Seq<Condition>) -> Seq<Param> {
    filters.map_values(|c: Condition| condition_param(c))
}

/// Whether every condition tests a column of the entity's allow-list.
pub open spec fn filterable(schema: Schema, filters: Seq<Condition>) -> bool {
    forall|i: int|
        0 <= i < filters.len() ==> schema.filter_columns.contains(
            condition_column(#[trigger] filters[i]),
        )
}

/// What a sort string asks for: after a leading `-`, the rest names the column,
/// sorted descending; otherwise the whole string names it, sorted ascending.
pub open spec fn sort_request(sort: Seq<char>) -> (Seq<char>, Direction) {
    if sort.len() > 0 && sort[0] == '-' {
        (sort.subrange(1, sort.len() as int), Direction::Descending)
    } else {
        (sort, Direction::Ascending)
    }
}

/// The order of a listing: the entity's default column, descending, when the
/// caller names none; nothing when the column asked for is not on the allow-list.
pub open spec fn sort_key(schema: Schema, sort: Option<Seq<char>>) -> Option<(Seq<char>, Direction)> {
    match sort {
        None => Some((schema.default_sort, Direction::Descending)),
        Some(s) => {
            let request = sort_request(s);
            if schema.sort_columns.contains(request.0) {
                Some(request)
            } else {
                None
            }
        },
    }
}

/// The clause that orders a listing.
pub open spec fn order_sql(key: (Seq<char>, Direction)) -> Seq<char> {
    match key.1 {
        Direction::Descending => " ORDER BY "@ + key.0 + " DESC"@,
        Direction::Ascending => " ORDER BY "@ + key.0 + " ASC"@,
    }
}

/// The page size used: the default when none is asked for, never more than the
/// largest served.
pub open spec fn page_limit(limit: Option<i64>) -> i64 {
    match limit {
        None => DEFAULT_LIMIT,
        Some(n) => if n > MAX_LIMIT {
            MAX_LIMIT
        } else {
            n
        },
    }
}

/// The offset used: zero when none is asked for.
pub open spec fn page_offset(offset: Option<i64>) -> i64 {
    match offset {
        None => 0,
        Some(n) => n,
    }
}

/// Text of the statement that fetches a page.
pub open spec fn fetch_sql(schema: Schema, filters: Seq<Condition>, key: (Seq<char>, Direction)) -> Seq<
    char,
> {
    schema.select_head + " WHERE 1=1"@ + where_sql(filters) + order_sql(key) + " LIMIT ? OFFSET ?"@
}

/// Text of the statement that counts the matching rows.
pub open spec fn count_sql(schema: Schema, filters: Seq<Condition>) -> Seq<char> {
    "SELECT COUNT(*) FROM "@ + schema.table + " WHERE 1=1"@ + where_sql(filters)
}

/// The plan of a listing. It is rejected when a filter or the sort names a
/// column outside the allow-list, or when the limit or the offset is negative.
/// Otherwise the fetch statement carries one clause and one parameter per
/// filter, the order, and the page bounds as its last two parameters; the count
/// statement carries the same clauses and parameters and nothing else.
pub open spec fn list_plan(schema: Schema, query: Listing) -> Result<ListPlanView, Failure> {
    if !filterable(schema, query.filters) {
        Err(Failure::ValidationError(UNKNOWN_FILTER_MESSAGE@))
    } else if sort_key(schema, query.sort) is None {
        Err(Failure::ValidationError(UNKNOWN_SORT_MESSAGE@))
    } else if query.limit is Some && query.limit->0 < 0 {
        Err(Failure::ValidationError(NEGATIVE_LIMIT_MESSAGE@))
    } else if query.offset is Some && query.offset->0 < 0 {
        Err(Failure::ValidationError(NEGATIVE_OFFSET_MESSAGE@))
    } else {
        let limit = page_limit(query.limit);
        let offset = page_offset(query.offset);
        Ok(
            ListPlanView {
                fetch: StatementView {
                    sql: fetch_sql(schema, query.filters, sort_key(schema, query.sort)->0),
                    params: where_params(query.filters).push(Param::Int(limit as int)).push(
                        Param::Int(offset as int),
                    ),
                },
                count: StatementView {
                    sql: count_sql(schema, query.filters),
                    params: where_params(query.filters),
                },
                limit,
                offset,
            },
        )
    }
}

/// The clauses and the parameters, twice, of a list of filters, provided every
/// filter tests a column of the entity's allow-list.
fn where_clause(desc: &EntityDescriptor, filters: &Vec<Filter>) -> (r: Option<
    (String, Vec<SqlValue>, Vec<SqlValue>),
>)
    ensures
        r is Some <==> filterable(desc@, conditions(filters@)),
        r matches Some((clause, bound, again)) ==> {
            &&& clause@ == where_sql(conditions(filters@))
            &&& params(bound@) == where_params(conditions(filters@))
            &&& params(again@) == where_params(conditions(filters@))
        },
{
    let ghost all = conditions(filters@);
    let mut clause = String::new();
    let mut bound: Vec<SqlValue> = Vec::new();
    let mut again: Vec<SqlValue> = Vec::new();
    let mut i: usize = 0;
    while i < filters.len()
        invariant
            i <= filters.len(),
            all == conditions(filters@),
            clause@ == where_sql(all.take(i as int)),
            params(bound@) =~= where_params(all).take(i as int),
            params(again@) =~= where_params(all).take(i as int),
            forall|j: int|
                0 <= j < i ==> desc@.filter_columns.contains(condition_column(#[trigger] all[j])),
        decreases filters.len() - i,
    {
        let ghost bound_before = params(bound@);
        let ghost again_before = params(again@);
        let ghost current = all[i as int];
        assert(current == filters@[i as int]@);
        match &filters[i] {
            Filter::Equals { column, value } => {
                match find_name(&desc.filter_columns, column) {
                    None => {
                        assert(!desc@.filter_columns.contains(condition_column(all[i as int])));
                        return None;
                    },
                    Some(name) => {
                        clause.append(" AND ");
                        clause.append(name);
                        clause.append(" = ?");
                        let first = value.clone();
                        let second = value.clone();
                        bound.push(first);
                        again.push(second);
                    },
                }
            },
            Filter::Contains { column, needle } => {
                match find_name(&desc.filter_columns, column) {
                    None => {
                        assert(!desc@.filter_columns.contains(condition_column(all[i as int])));
                        return None;
                    },
                    Some(name) => {
                        clause.append(" AND ");
                        clause.append(name);
                        clause.append(" LIKE ?");
                        let mut pattern = String::from_str("%");
                        pattern.append(needle.as_str());
                        pattern.append("%");
                        let copy = pattern.clone();
                        bound.push(SqlValue::Text(pattern));
                        again.push(SqlValue::Text(copy));
                    },
                }
            },
        }
        proof {
            let upto = all.take(i + 1);
            assert(upto.drop_last() =~= all.take(i as int));
            assert(upto.last() == current);
            assert(params(bound@) =~= bound_before.push(condition_param(current)));
            assert(params(again@) =~= again_before.push(condition_param(current)));
            assert(where_params(all).take(i + 1) =~= where_params(all).take(i as int).push(
                condition_param(current),
            ));
        }
        i += 1;
    }
    assert(all.take(filters.len() as int) =~= all);
    assert(where_params(all).take(filters.len() as int) =~= where_params(all));
    Some((clause, bound, again))
}

/// Resolves the sort a caller asks for against the entity's allow-list.
pub fn resolve_sort(desc: &EntityDescriptor, sort: &Option<String>) -> (r: Option<
    (&'static str, Direction),
>)
    ensures
        match r {
            Some((column, direction)) => sort_key(desc@, text_of(*sort)) == Some(
                (column@, direction),
            ),
            None => sort_key(desc@, text_of(*sort)) is None,
        },
{
    match sort {
        None => Some((desc.default_sort, Direction::Descending)),
        Some(s) => {
            let text = s.as_str();
            let length = text.unicode_len();
            if length > 0 && text.get_char(0) == '-' {
                let rest = text.substring_char(1, length);
                match find_name(&desc.sort_columns, rest) {
                    Some(column) => Some((column, Direction::Descending)),
                    None => None,
                }
            } else {
                match find_name(&desc.sort_columns, text) {
                    Some(column) => Some((column, Direction::Ascending)),
                    None => None,
                }
            }
        },
    }
}

/// Whether a listing result has the given content.
pub open spec fn listed(r: Result<ListPlan, RepoError>, plan: Result<ListPlanView, Failure>) -> bool {
    match r {
        Ok(p) => plan == Ok::<ListPlanView, Failure>(p@),
        Err(e) => plan == Err::<ListPlanView, Failure>(e@),
    }
}

/// Plans a listing of the entity's rows.
pub fn plan_list(desc: &EntityDescriptor, query: &ListQuery) -> (r: Result<ListPlan, RepoError>)
    ensures
        listed(r, list_plan(desc@, query@)),
{
    let (clause, mut bound, again) = match where_clause(desc, &query.filters) {
        None => {
            return Err(RepoError::ValidationError(String::from_str(UNKNOWN_FILTER_MESSAGE)));
        },
        Some(parts) => parts,
    };
    let (column, direction) = match resolve_sort(desc, &query.sort) {
        None => {
            return Err(RepoError::ValidationError(String::from_str(UNKNOWN_SORT_MESSAGE)));
        },
        Some(key) => key,
    };
    let limit: i64 = match query.limit {
        None => DEFAULT_LIMIT,
        Some(n) => {
            if n < 0 {
                return Err(RepoError::ValidationError(String::from_str(NEGATIVE_LIMIT_MESSAGE)));
            }
            if n > MAX_LIMIT {
                MAX_LIMIT
            } else {
                n
            }
        },
    };
    let offset: i64 = match query.offset {
        None => 0,
        Some(n) => {
            if n < 0 {
                return Err(RepoError::ValidationError(String::from_str(NEGATIVE_OFFSET_MESSAGE)));
            }
            n
        },
    };
    let mut fetch = String::from_str(desc.select_head);
    fetch.append(" WHERE 1=1");
    fetch.append(clause.as_str());
    let mut order = String::from_str(" ORDER BY ");
    order.append(column);
    match direction {
        Direction::Descending => order.append(" DESC"),
        Direction::Ascending => order.append(" ASC"),
    }
    fetch.append(order.as_str());
    fetch.append(" LIMIT ? OFFSET ?");
    let mut count = String::from_str("SELECT COUNT(*) FROM ");
    count.append(desc.table);
    count.append(" WHERE 1=1");
    count.append(clause.as_str());
    let ghost bound_before = params(bound@);
    bound.push(SqlValue::Int(limit));
    bound.push(SqlValue::Int(offset));
    proof {
        assert(params(bound@) =~= bound_before.push(Param::Int(limit as int)).push(
            Param::Int(offset as int),
        ));
    }
    Ok(
        ListPlan {
            fetch: Statement { sql: fetch, params: bound },
            count: Statement { sql: count, params: again },
            limit,
            offset,
        },
    )
}

/// The exact-match condition on a text column, if the filter is present.
pub open spec fn equals_if_text(column: Seq<char>, field: Option<String>) -> Seq<Condition> {
    match field {
        Some(s) => seq![Condition::Equals { column, value: Param::Text(s@) }],
        None => Seq::empty(),
    }
}

/// The exact-match condition on an integer column, if the filter is present.
pub open spec fn equals_if_int(column: Seq<char>, field: Option<i64>) -> Seq<Condition> {
    match field {
        Some(n) => seq![Condition::Equals { column, value: Param::Int(n as int) }],
        None => Seq::empty(),
    }
}

/// The substring condition on a text column, if the filter is present.
pub open spec fn contains_if_text(column: Seq<char>, field: Option<String>) -> Seq<Condition> {
    match field {
        Some(s) => seq![Condition::Contains { column, needle: s@ }],
        None => Seq::empty(),
    }
}

/// Adds the exact-match condition on a text column, if the filter is present.
pub fn filter_text(list: &mut Vec<Filter>, column: &'static str, field: &Option<String>)
    ensures
        conditions(final(list)@) == conditions(old(list)@) + equals_if_text(column@, *field),
{
    match field {
        Some(s) => {
            list.push(Filter::Equals { column, value: SqlValue::Text(s.clone()) });
        },
        None => {},
    }
    assert(conditions(list@) =~= conditions(old(list)@) + equals_if_text(column@, *field));
}

/// Adds the exact-match condition on an integer column, if the filter is
/// present.
pub fn filter_int(list: &mut Vec<Filter>, column: &'static str, field: &Option<i64>)
    ensures
        conditions(final(list)@) == conditions(old(list)@) + equals_if_int(column@, *field),
{
    match field {
        Some(n) => {
            list.push(Filter::Equals { column, value: SqlValue::Int(*n) });
        },
        None => {},
    }
    assert(conditions(list@) =~= conditions(old(list)@) + equals_if_int(column@, *field));
}

/// Adds the substring condition on a text column, if the filter is present.
pub fn filter_substring(list: &mut Vec<Filter>, column: &'static str, field: &Option<String>)
    ensures
        conditions(final(list)@) == conditions(old(list)@) + contains_if_text(column@, *field),
{
    match field {
        Some(s) => {
            list.push(Filter::Contains { column, needle: s.clone() });
        },
        None => {},
    }
    assert(conditions(list@) =~= conditions(old(list)@) + contains_if_text(column@, *field));
}

/// Sort direction: a leading `-` before a column's name asks for that column
/// in descending order, the bare name for ascending order; and a column of the
/// allow-list is then ordered by with `DESC`, respectively `ASC`.
pub proof fn sort_sigil_sets_direction(schema: Schema, column: Seq<char>)
    requires
        column.len() > 0 ==> column[0] != '-',
        schema.sort_columns.contains(column),
    ensures
        sort_key(schema, Some("-"@ + column)) == Some((column, Direction::Descending)),
        sort_key(schema, Some(column)) == Some((column, Direction::Ascending)),
        order_sql(sort_key(schema, Some("-"@ + column))->0) == " ORDER BY "@ + column + " DESC"@,
        order_sql(sort_key(schema, Some(column))->0) == " ORDER BY "@ + column + " ASC"@,
{
    reveal_strlit("-");
    let signed = "-"@ + column;
    assert(signed.len() > 0 && signed[0] == '-');
    assert(signed.subrange(1, signed.len() as int) =~= column);
}

/// Filter combination: every filter that is present contributes exactly one
/// clause and one parameter, in order, and the count statement tests the same
/// clauses with the same parameters as the fetch statement, whose only further
/// parameters are the page bounds.
pub proof fn count_tests_what_fetch_tests(schema: Schema, query: Listing)
    requires
        list_plan(schema, query) is Ok,
    ensures
        ({
            let plan = list_plan(schema, query)->Ok_0;
            let n = query.filters.len() as int;
            &&& plan.count.sql == "SELECT COUNT(*) FROM "@ + schema.table + " WHERE 1=1"@
                + where_sql(query.filters)
            &&& plan.fetch.sql == schema.select_head + " WHERE 1=1"@ + where_sql(query.filters)
                + order_sql(sort_key(schema, query.sort)->0) + " LIMIT ? OFFSET ?"@
            &&& plan.count.params.len() == n
            &&& plan.fetch.params.len() == n + 2
            &&& plan.fetch.params.take(n) == plan.count.params
            &&& forall|i: int|
                0 <= i < n ==> plan.count.params[i] == condition_param(#[trigger] query.filters[i])
            &&& plan.fetch.params[n] == Param::Int(plan.limit as int)
            &&& plan.fetch.params[n + 1] == Param::Int(plan.offset as int)
        }),
{
    let plan = list_plan(schema, query)->Ok_0;
    let n = query.filters.len() as int;
    assert(plan.fetch.params.take(n) =~= plan.count.params);
}

/// Two filters are combined conjunctively: each adds its own `AND` clause.
pub proof fn two_filters_are_conjoined(first: Condition, second: Condition)
    ensures
        where_sql(seq![first, second]) == condition_sql(first) + condition_sql(second),
        where_params(seq![first, second]) == seq![condition_param(first), condition_param(second)],
{
    let both = seq![first, second];
    assert(both.drop_last() =~= seq![first]);
    assert(seq![first].drop_last() =~= Seq::<Condition>::empty());
    reveal_with_fuel(where_sql, 3);
    assert(where_sql(seq![first]) =~= condition_sql(first));
    assert(where_params(both) =~= seq![condition_param(first), condition_param(second)]);
}

/// Page bounds: a listing uses the limit asked for, cut down to the largest
/// served, or the default; and the offset asked for, or zero. Neither is
/// negative in a plan.
pub proof fn page_bounds_are_within_range(schema: Schema, query: Listing)
    requires
        list_plan(schema, query) is Ok,
    ensures
        ({
            let plan = list_plan(schema, query)->Ok_0;
            &&& 0 <= plan.limit <= MAX_LIMIT
            &&& 0 <= plan.offset
            &&& query.limit is None ==> plan.limit == DEFAULT_LIMIT
            &&& query.limit matches Some(n) ==> (n <= MAX_LIMIT ==> plan.limit == n)
            &&& query.offset is None ==> plan.offset == 0
            &&& query.offset matches Some(n) ==> plan.offset == n
        }),
{
}

} // verus!
