//! Form submissions ("my data"): the one entity whose identity is generated
//! here, as an opaque string, rather than assigned by the store.

use vstd::prelude::*;
use vstd::std_specs::convert::FromSpecImpl;
use crate::codec::{bind_json, decode, decoded, opt_json};
use crate::descriptor::{names, EntityDescriptor, Schema};
use crate::patch::{
    assign,
    assign_json,
    assign_text,
    insert_plan,
    set_if_json,
    set_if_text,
    set_to,
    update_plan,
    writable,
    writable_joined,
    writable_none,
    writable_single,
};
use crate::query::{
    contains_if_text,
    equals_if_text,
    filter_substring,
    filter_text,
    filterable,
    ListQuery,
    Listing,
};
use crate::repository::{
    begin_create_now,
    begin_delete,
    begin_get,
    begin_get_all,
    begin_list,
    begin_update_now,
    create_begins,
    delete_begins,
    get_all_begins,
    get_begins,
    list_begins,
    update_begins,
    Turn,
};
use crate::stamp::{is_identity, is_utc_stamp};
use crate::statement::{assigned, Assigned, Assignment};
use crate::value::{opt_text, text_of, Param, SqlValue};

verus! {

broadcast use {writable_joined, writable_none, writable_single};

/// A row of the form-submission table; `contact` holds its stored text.
#[derive(Debug, Clone)]
pub struct MyData {
    pub id: String,
    pub user_created: Option<String>,
    pub date_created: Option<String>,
    pub user_updated: Option<String>,
    pub date_updated: Option<String>,
    pub state: Option<String>,
    pub form_name: Option<String>,
    pub contact: Option<String>,
    pub created_at: Option<String>,
    pub updated_at: Option<String>,
}

/// A form submission as shown to callers, `contact` decoded.
#[derive(Debug, Clone)]
pub struct MyDataResponse {
    pub id: String,
    pub user_created: Option<String>,
    pub date_created: Option<String>,
    pub user_updated: Option<String>,
    pub date_updated: Option<String>,
    pub state: Option<String>,
    pub form_name: Option<String>,
    pub contact: Option<serde_json::Value>,
    pub created_at: Option<String>,
    pub updated_at: Option<String>,
}

impl From<MyData> for MyDataResponse {
    fn from(data: MyData) -> (response: Self) {
        let contact = decode(&data.contact);
        MyDataResponse {
            id: data.id,
            user_created: data.user_created,
            date_created: data.date_created,
            user_updated: data.user_updated,
            date_updated: data.date_updated,
            state: data.state,
            form_name: data.form_name,
            contact,
            created_at: data.created_at,
            updated_at: data.updated_at,
        }
    }
}

impl FromSpecImpl<MyData> for MyDataResponse {
    open spec fn obeys_from_spec() -> bool {
        true
    }

    /// Every field is shown as stored, but for the JSON-valued ones, which are
    /// decoded from their stored text.
    open spec fn from_spec(data: MyData) -> Self {
        MyDataResponse {
            id: data.id,
            user_created: data.user_created,
            date_created: data.date_created,
            user_updated: data.user_updated,
            date_updated: data.date_updated,
            state: data.state,
            form_name: data.form_name,
            contact: decoded(text_of(data.contact)),
            created_at: data.created_at,
            updated_at: data.updated_at,
        }
    }
}

/// What a caller sends to create a form submission.
#[derive(Debug)]
pub struct CreateMyDataRequest {
    pub state: Option<String>,
    pub form_name: Option<String>,
    pub contact: Option<serde_json::Value>,
}

/// What a caller sends to update a form submission: only the fields to
/// change.
#[derive(Debug)]
pub struct UpdateMyDataRequest {
    pub state: Option<String>,
    pub form_name: Option<String>,
    pub contact: Option<serde_json::Value>,
    pub user_updated: Option<String>,
}

/// What a caller asks of a listing of form submissions.
#[derive(Debug)]
pub struct MyDataQuery {
    pub state: Option<String>,
    pub form_name: Option<String>,
    pub limit: Option<i64>,
    pub offset: Option<i64>,
    pub sort: Option<String>,
}

/// Text that reads whole form submissions.
pub const SELECT_MY_DATA: &'static str =
    "SELECT id, user_created, CASE WHEN date_created IS NOT NULL THEN datetime(date_created / 1000, 'unixepoch') ELSE NULL END as date_created, user_updated, CASE WHEN date_updated IS NOT NULL THEN datetime(date_updated / 1000, 'unixepoch') ELSE NULL END as date_updated, state, formName, contact, createdAt, updatedAt FROM mydata";

/// What the repository knows of form submissions.
pub open spec fn schema() -> Schema {
    Schema {
        table: "mydata"@,
        label: "記錄"@,
        noun: "記錄"@,
        select_head: SELECT_MY_DATA@,
        key_column: "id"@,
        natural_key: None,
        generated_key: true,
        default_sort: "date_created"@,
        columns: seq![
            "state"@,
            "formName"@,
            "contact"@,
            "user_updated"@,
        ],
        sort_columns: seq![
            "id"@,
            "state"@,
            "formName"@,
            "contact"@,
            "createdAt"@,
            "updatedAt"@,
            "date_created"@,
            "date_updated"@,
        ],
        filter_columns: seq!["state"@, "formName"@],
        lookup_columns: seq!["state"@],
    }
}

/// The descriptor of form submissions.
pub fn descriptor() -> (desc: EntityDescriptor)
    ensures
        desc@ == schema(),
{
    let columns = vec![
        "state",
        "formName",
        "contact",
        "user_updated",
    ];
    let sort_columns = vec![
        "id",
        "state",
        "formName",
        "contact",
        "createdAt",
        "updatedAt",
        "date_created",
        "date_updated",
    ];
    let filter_columns = vec!["state", "formName"];
    let lookup_columns = vec!["state"];
    proof {
        assert(names(columns@) =~= schema().columns);
        assert(names(sort_columns@) =~= schema().sort_columns);
        assert(names(filter_columns@) =~= schema().filter_columns);
        assert(names(lookup_columns@) =~= schema().lookup_columns);
    }
    EntityDescriptor {
        table: "mydata",
        label: "記錄",
        noun: "記錄",
        select_head: SELECT_MY_DATA,
        key_column: "id",
        natural_key: None,
        generated_key: true,
        default_sort: "date_created",
        columns,
        sort_columns,
        filter_columns,
        lookup_columns,
    }
}

impl MyDataQuery {
    /// The listing asked for: an exact-match filter on `state` and a substring
    /// filter on `formName`, each only if present.
    pub open spec fn listing(&self) -> Listing {
        Listing {
            filters: equals_if_text("state"@, self.state)
                + contains_if_text("formName"@, self.form_name),
            sort: text_of(self.sort),
            limit: self.limit,
            offset: self.offset,
        }
    }

    /// The listing asked for.
    pub fn list_query(&self) -> (query: ListQuery)
        ensures
            query@ == self.listing(),
    {
        let mut filters = Vec::new();
        filter_text(&mut filters, "state", &self.state);
        filter_substring(&mut filters, "formName", &self.form_name);
        assert(crate::query::conditions(filters@) =~= self.listing().filters);
        ListQuery { filters, sort: self.sort.clone(), limit: self.limit, offset: self.offset }
    }
}

impl CreateMyDataRequest {
    /// The fields of the row to create, in column order; an absent field is
    /// stored as NULL.
    pub open spec fn fields(&self) -> Seq<Assigned> {
        set_to("state"@, opt_text(self.state))
            + set_to("formName"@, opt_text(self.form_name))
            + set_to("contact"@, opt_json(self.contact))
    }

    /// The fields of the row to create.
    pub fn assignments(&self) -> (list: Vec<Assignment>)
        ensures
            assigned(list@) == self.fields(),
    {
        let mut list = Vec::new();
        assign(&mut list, "state", SqlValue::from_opt_text(&self.state));
        assign(&mut list, "formName", SqlValue::from_opt_text(&self.form_name));
        assign(&mut list, "contact", bind_json(&self.contact));
        assert(assigned(list@) =~= self.fields());
        list
    }
}

impl UpdateMyDataRequest {
    /// The fields to change: those that are present, in column order.
    pub open spec fn fields(&self) -> Seq<Assigned> {
        set_if_text("state"@, self.state)
            + set_if_text("formName"@, self.form_name)
            + set_if_json("contact"@, self.contact)
            + set_if_text("user_updated"@, self.user_updated)
    }

    /// The fields to change.
    pub fn patch(&self) -> (list: Vec<Assignment>)
        ensures
            assigned(list@) == self.fields(),
    {
        let mut list = Vec::new();
        assign_text(&mut list, "state", &self.state);
        assign_text(&mut list, "formName", &self.form_name);
        assign_json(&mut list, "contact", &self.contact);
        assign_text(&mut list, "user_updated", &self.user_updated);
        assert(assigned(list@) =~= self.fields());
        list
    }
}

/// Begins the listing of form submissions.
pub fn get_all_my_data(params: &MyDataQuery) -> (turn: Turn<MyData>)
    ensures
        list_begins(schema(), params.listing(), turn),
{
    begin_list(&descriptor(), &params.list_query())
}

/// Begins the lookup of all form submissions in `state`.
pub fn get_my_data_by_state(state: &str) -> (turn: Turn<MyData>)
    ensures
        get_all_begins(schema(), "state"@, Param::Text(state@), turn),
{
    begin_get_all(&descriptor(), "state", SqlValue::text(state))
}

/// Begins the lookup of the form submission with identity `id`.
pub fn get_my_data_by_id(id: &str) -> (turn: Turn<MyData>)
    ensures
        get_begins(schema(), "id"@, Param::Text(id@), turn),
{
    begin_get(&descriptor(), "id", SqlValue::text(id))
}

/// Begins the create of a form submission, stamped with the current time, under a
/// freshly generated identity.
pub fn create_my_data(payload: &CreateMyDataRequest) -> (turn: Turn<MyData>)
    ensures
        exists|now: Seq<char>, fresh_key: Seq<char>|
            {
                &&& is_utc_stamp(now)
                &&& is_identity(fresh_key)
                &&& #[trigger] create_begins(schema(), payload.fields(), now, fresh_key, turn)
            },
{
    begin_create_now(&descriptor(), &payload.assignments())
}

/// Begins the update of the form submission with identity `id`, stamped with the
/// current time.
pub fn update_my_data(id: &str, payload: &UpdateMyDataRequest) -> (turn: Turn<MyData>)
    ensures
        exists|now: Seq<char>|
            is_utc_stamp(now) && #[trigger] update_begins(
                schema(),
                Param::Text(id@),
                payload.fields(),
                now,
                turn,
            ),
{
    begin_update_now(&descriptor(), SqlValue::text(id), &payload.patch())
}

/// Begins the delete of the form submission with identity `id`.
pub fn delete_my_data(id: &str) -> (turn: Turn<MyData>)
    ensures
        delete_begins(schema(), Param::Text(id@), turn),
{
    begin_delete(&descriptor(), SqlValue::text(id))
}

/// The filters of a typed query are all on the allow-list: a listing of
/// form submissions is rejected only for its sort or its page bounds.
pub proof fn filters_are_allowed(params: MyDataQuery)
    ensures
        filterable(schema(), params.listing().filters),
{
    let allowed = schema().filter_columns;
    assert(allowed[0] == "state"@);
    assert(allowed[1] == "formName"@);
}

/// The fields of a typed create request are all writable: the insert is
/// always planned.
pub proof fn create_is_planned(payload: CreateMyDataRequest, now: Seq<char>, fresh_key: Seq<char>)
    ensures
        writable(schema(), payload.fields()),
        insert_plan(schema(), fresh_key, payload.fields(), now) is Ok,
{
    let writable_columns = schema().columns;
    assert(writable_columns[0] == "state"@);
    assert(writable_columns[1] == "formName"@);
    assert(writable_columns[2] == "contact"@);
}

/// The fields of a typed update request are all writable: the update is
/// rejected only when the request names no field.
pub proof fn update_is_planned_unless_empty(payload: UpdateMyDataRequest, id: Param, now: Seq<char>)
    ensures
        writable(schema(), payload.fields()),
        update_plan(schema(), id, payload.fields(), now) is Ok <==> payload.fields().len() > 0,
{
    let writable_columns = schema().columns;
    assert(writable_columns[0] == "state"@);
    assert(writable_columns[1] == "formName"@);
    assert(writable_columns[2] == "contact"@);
    assert(writable_columns[3] == "user_updated"@);
}

} // verus!
