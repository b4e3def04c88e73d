//! Registrations: submissions of a form, with three JSON-valued fields.

use vstd::prelude::*;
use vstd::std_specs::convert::FromSpecImpl;
use crate::codec::{bind_json, decode, decoded, opt_json};
use crate::descriptor::{names, EntityDescriptor, Schema};
use crate::patch::{
    assign,
    assign_json,
    assign_text,
    insert_plan,
    set_if_json,
    set_if_text,
    set_to,
    update_plan,
    writable,
    writable_joined,
    writable_none,
    writable_single,
};
use crate::query::{
    equals_if_text,
    filter_text,
    filterable,
    ListQuery,
    Listing,
};
use crate::repository::{
    begin_create_now,
    begin_delete,
    begin_get,
    begin_list,
    begin_update_now,
    create_begins,
    delete_begins,
    get_begins,
    list_begins,
    update_begins,
    Turn,
};
use crate::stamp::{is_utc_stamp};
use crate::statement::{assigned, Assigned, Assignment};
use crate::value::{opt_text, text_of, Param, SqlValue};

verus! {

broadcast use {writable_joined, writable_none, writable_single};

/// A row of the registration table; the JSON-valued fields hold their stored text.
#[derive(Debug, Clone)]
pub struct Registration {
    pub id: i64,
    pub user_created: Option<String>,
    pub date_created: Option<String>,
    pub user_updated: Option<String>,
    pub date_updated: Option<String>,
    pub state: Option<String>,
    pub form_id: Option<String>,
    pub form_name: Option<String>,
    pub form_source: Option<String>,
    pub salvation: Option<String>,
    pub contact: Option<String>,
    pub blessing: Option<String>,
    pub created_at: Option<String>,
    pub updated_at: Option<String>,
}

/// A registration as shown to callers, the JSON-valued fields decoded.
#[derive(Debug, Clone)]
pub struct RegistrationResponse {
    pub id: i64,
    pub user_created: Option<String>,
    pub date_created: Option<String>,
    pub user_updated: Option<String>,
    pub date_updated: Option<String>,
    pub state: Option<String>,
    pub form_id: Option<String>,
    pub form_name: Option<String>,
    pub form_source: Option<String>,
    pub salvation: Option<serde_json::Value>,
    pub contact: Option<serde_json::Value>,
    pub blessing: Option<serde_json::Value>,
    pub created_at: Option<String>,
    pub updated_at: Option<String>,
}

impl From<Registration> for RegistrationResponse {
    fn from(registration: Registration) -> (response: Self) {
        let salvation = decode(&registration.salvation);
        let contact = decode(&registration.contact);
        let blessing = decode(&registration.blessing);
        RegistrationResponse {
            id: registration.id,
            user_created: registration.user_created,
            date_created: registration.date_created,
            user_updated: registration.user_updated,
            date_updated: registration.date_updated,
            state: registration.state,
            form_id: registration.form_id,
            form_name: registration.form_name,
            form_source: registration.form_source,
            salvation,
            contact,
            blessing,
            created_at: registration.created_at,
            updated_at: registration.updated_at,
        }
    }
}

impl FromSpecImpl<Registration> for RegistrationResponse {
    open spec fn obeys_from_spec() -> bool {
        true
    }

    /// Every field is shown as stored, but for the JSON-valued ones, which are
    /// decoded from their stored text.
    open spec fn from_spec(registration: Registration) -> Self {
        RegistrationResponse {
            id: registration.id,
            user_created: registration.user_created,
            date_created: registration.date_created,
            user_updated: registration.user_updated,
            date_updated: registration.date_updated,
            state: registration.state,
            form_id: registration.form_id,
            form_name: registration.form_name,
            form_source: registration.form_source,
            salvation: decoded(text_of(registration.salvation)),
            contact: decoded(text_of(registration.contact)),
            blessing: decoded(text_of(registration.blessing)),
            created_at: registration.created_at,
            updated_at: registration.updated_at,
        }
    }
}

/// What a caller sends to create a registration.
#[derive(Debug)]
pub struct CreateRegistrationRequest {
    pub state: Option<String>,
    pub form_id: String,
    pub form_name: Option<String>,
    pub form_source: Option<String>,
    pub salvation: Option<serde_json::Value>,
    pub contact: Option<serde_json::Value>,
    pub blessing: Option<serde_json::Value>,
}

/// What a caller sends to update a registration: only the fields to change.
#[derive(Debug)]
pub struct UpdateRegistrationRequest {
    pub state: Option<String>,
    pub form_id: Option<String>,
    pub form_name: Option<String>,
    pub form_source: Option<String>,
    pub salvation: Option<serde_json::Value>,
    pub contact: Option<serde_json::Value>,
    pub blessing: Option<serde_json::Value>,
}

/// What a caller asks of a listing of registrations.
#[derive(Debug)]
pub struct RegistrationQuery {
    pub state: Option<String>,
    pub form_id: Option<String>,
    pub limit: Option<i64>,
    pub offset: Option<i64>,
    pub sort: Option<String>,
}

/// Text that reads whole registrations.
pub const SELECT_REGISTRATIONS: &'static str =
    "SELECT id, user_created, CASE WHEN date_created IS NOT NULL THEN datetime(date_created / 1000, 'unixepoch') ELSE NULL END as date_created, user_updated, CASE WHEN date_updated IS NOT NULL THEN datetime(date_updated / 1000, 'unixepoch') ELSE NULL END as date_updated, state, formId, formName, formSource, salvation, contact, blessing, createdAt, updatedAt FROM registrationDB";

/// What the repository knows of registrations.
pub open spec fn schema() -> Schema {
    Schema {
        table: "registrationDB"@,
        label: "報名記錄"@,
        noun: "報名記錄"@,
        select_head: SELECT_REGISTRATIONS@,
        key_column: "id"@,
        natural_key: None,
        generated_key: false,
        default_sort: "createdAt"@,
        columns: seq![
            "state"@,
            "formId"@,
            "formName"@,
            "formSource"@,
            "salvation"@,
            "contact"@,
            "blessing"@,
        ],
        sort_columns: seq![
            "id"@,
            "state"@,
            "formId"@,
            "formName"@,
            "formSource"@,
            "salvation"@,
            "contact"@,
            "blessing"@,
            "createdAt"@,
            "updatedAt"@,
            "date_created"@,
            "date_updated"@,
        ],
        filter_columns: seq!["state"@, "formId"@],
        lookup_columns: seq!["formId"@, "state"@, "user_created"@],
    }
}

/// The descriptor of registrations.
pub fn descriptor() -> (desc: EntityDescriptor)
    ensures
        desc@ == schema(),
{
    let columns = vec![
        "state",
        "formId",
        "formName",
        "formSource",
        "salvation",
        "contact",
        "blessing",
    ];
    let sort_columns = vec![
        "id",
        "state",
        "formId",
        "formName",
        "formSource",
        "salvation",
        "contact",
        "blessing",
        "createdAt",
        "updatedAt",
        "date_created",
        "date_updated",
    ];
    let filter_columns = vec!["state", "formId"];
    let lookup_columns = vec!["formId", "state", "user_created"];
    proof {
        assert(names(columns@) =~= schema().columns);
        assert(names(sort_columns@) =~= schema().sort_columns);
        assert(names(filter_columns@) =~= schema().filter_columns);
        assert(names(lookup_columns@) =~= schema().lookup_columns);
    }
    EntityDescriptor {
        table: "registrationDB",
        label: "報名記錄",
        noun: "報名記錄",
        select_head: SELECT_REGISTRATIONS,
        key_column: "id",
        natural_key: None,
        generated_key: false,
        default_sort: "createdAt",
        columns,
        sort_columns,
        filter_columns,
        lookup_columns,
    }
}

impl RegistrationQuery {
    /// The listing asked for: one exact-match filter for each of `state` and
    /// `formId` that is present.
    pub open spec fn listing(&self) -> Listing {
        Listing {
            filters: equals_if_text("state"@, self.state)
                + equals_if_text("formId"@, self.form_id),
            sort: text_of(self.sort),
            limit: self.limit,
            offset: self.offset,
        }
    }

    /// The listing asked for.
    pub fn list_query(&self) -> (query: ListQuery)
        ensures
            query@ == self.listing(),
    {
        let mut filters = Vec::new();
        filter_text(&mut filters, "state", &self.state);
        filter_text(&mut filters, "formId", &self.form_id);
        assert(crate::query::conditions(filters@) =~= self.listing().filters);
        ListQuery { filters, sort: self.sort.clone(), limit: self.limit, offset: self.offset }
    }
}

impl CreateRegistrationRequest {
    /// The fields of the row to create, in column order; an absent field is
    /// stored as NULL.
    pub open spec fn fields(&self) -> Seq<Assigned> {
        set_to("state"@, opt_text(self.state))
            + set_to("formId"@, Param::Text(self.form_id@))
            + set_to("formName"@, opt_text(self.form_name))
            + set_to("formSource"@, opt_text(self.form_source))
            + set_to("salvation"@, opt_json(self.salvation))
            + set_to("contact"@, opt_json(self.contact))
            + set_to("blessing"@, opt_json(self.blessing))
    }

    /// The fields of the row to create.
    pub fn assignments(&self) -> (list: Vec<Assignment>)
        ensures
            assigned(list@) == self.fields(),
    {
        let mut list = Vec::new();
        assign(&mut list, "state", SqlValue::from_opt_text(&self.state));
        assign(&mut list, "formId", SqlValue::Text(self.form_id.clone()));
        assign(&mut list, "formName", SqlValue::from_opt_text(&self.form_name));
        assign(&mut list, "formSource", SqlValue::from_opt_text(&self.form_source));
        assign(&mut list, "salvation", bind_json(&self.salvation));
        assign(&mut list, "contact", bind_json(&self.contact));
        assign(&mut list, "blessing", bind_json(&self.blessing));
        assert(assigned(list@) =~= self.fields());
        list
    }
}

impl UpdateRegistrationRequest {
    /// The fields to change: those that are present, in column order.
    pub open spec fn fields(&self) -> Seq<Assigned> {
        set_if_text("state"@, self.state)
            + set_if_text("formId"@, self.form_id)
            + set_if_text("formName"@, self.form_name)
            + set_if_text("formSource"@, self.form_source)
            + set_if_json("salvation"@, self.salvation)
            + set_if_json("contact"@, self.contact)
            + set_if_json("blessing"@, self.blessing)
    }

    /// The fields to change.
    pub fn patch(&self) -> (list: Vec<Assignment>)
        ensures
            assigned(list@) == self.fields(),
    {
        let mut list = Vec::new();
        assign_text(&mut list, "state", &self.state);
        assign_text(&mut list, "formId", &self.form_id);
        assign_text(&mut list, "formName", &self.form_name);
        assign_text(&mut list, "formSource", &self.form_source);
        assign_json(&mut list, "salvation", &self.salvation);
        assign_json(&mut list, "contact", &self.contact);
        assign_json(&mut list, "blessing", &self.blessing);
        assert(assigned(list@) =~= self.fields());
        list
    }
}

/// Begins the listing of registrations.
pub fn get_all_registrations(params: &RegistrationQuery) -> (turn: Turn<Registration>)
    ensures
        list_begins(schema(), params.listing(), turn),
{
    begin_list(&descriptor(), &params.list_query())
}

/// Begins the lookup of the first registration of the form `form_id`.
pub fn get_registration_by_form_id(form_id: &str) -> (turn: Turn<Registration>)
    ensures
        get_begins(schema(), "formId"@, Param::Text(form_id@), turn),
{
    begin_get(&descriptor(), "formId", SqlValue::text(form_id))
}

/// Begins the lookup of the first registration in `state`. Which one is
/// first among several is left to the store.
pub fn get_registration_by_state(state: &str) -> (turn: Turn<Registration>)
    ensures
        get_begins(schema(), "state"@, Param::Text(state@), turn),
{
    begin_get(&descriptor(), "state", SqlValue::text(state))
}

/// Begins the lookup of the first registration created by `user_id`. Which
/// one is first among several is left to the store.
pub fn get_registration_by_user(user_id: &str) -> (turn: Turn<Registration>)
    ensures
        get_begins(schema(), "user_created"@, Param::Text(user_id@), turn),
{
    begin_get(&descriptor(), "user_created", SqlValue::text(user_id))
}

/// Begins the lookup of the registration with identity `id`.
pub fn get_registration_by_id(id: i64) -> (turn: Turn<Registration>)
    ensures
        get_begins(schema(), "id"@, Param::Int(id as int), turn),
{
    begin_get(&descriptor(), "id", SqlValue::Int(id))
}

/// Begins the create of a registration, stamped with the current time.
pub fn create_registration(payload: &CreateRegistrationRequest) -> (turn: Turn<Registration>)
    ensures
        exists|now: Seq<char>, fresh_key: Seq<char>|
            {
                &&& is_utc_stamp(now)
                &&& #[trigger] create_begins(schema(), payload.fields(), now, fresh_key, turn)
            },
{
    begin_create_now(&descriptor(), &payload.assignments())
}

/// Begins the update of the registration with identity `id`, stamped with the
/// current time.
pub fn update_registration(id: i64, payload: &UpdateRegistrationRequest) -> (turn: Turn<Registration>)
    ensures
        exists|now: Seq<char>|
            is_utc_stamp(now) && #[trigger] update_begins(
                schema(),
                Param::Int(id as int),
                payload.fields(),
                now,
                turn,
            ),
{
    begin_update_now(&descriptor(), SqlValue::Int(id), &payload.patch())
}

/// Begins the delete of the registration with identity `id`.
pub fn delete_registration(id: i64) -> (turn: Turn<Registration>)
    ensures
        delete_begins(schema(), Param::Int(id as int), turn),
{
    begin_delete(&descriptor(), SqlValue::Int(id))
}

/// The filters of a typed query are all on the allow-list: a listing of
/// registrations is rejected only for its sort or its page bounds.
pub proof fn filters_are_allowed(params: RegistrationQuery)
    ensures
        filterable(schema(), params.listing().filters),
{
    let allowed = schema().filter_columns;
    assert(allowed[0] == "state"@);
    assert(allowed[1] == "formId"@);
}

/// The fields of a typed create request are all writable: the insert is
/// always planned.
pub proof fn create_is_planned(payload: CreateRegistrationRequest, now: Seq<char>, fresh_key: Seq<char>)
    ensures
        writable(schema(), payload.fields()),
        insert_plan(schema(), fresh_key, payload.fields(), now) is Ok,
{
    let writable_columns = schema().columns;
    assert(writable_columns[0] == "state"@);
    assert(writable_columns[1] == "formId"@);
    assert(writable_columns[2] == "formName"@);
    assert(writable_columns[3] == "formSource"@);
    assert(writable_columns[4] == "salvation"@);
    assert(writable_columns[5] == "contact"@);
    assert(writable_columns[6] == "blessing"@);
}

/// The fields of a typed update request are all writable: the update is
/// rejected only when the request names no field.
pub proof fn update_is_planned_unless_empty(payload: UpdateRegistrationRequest, id: Param, now: Seq<char>)
    ensures
        writable(schema(), payload.fields()),
        update_plan(schema(), id, payload.fields(), now) is Ok <==> payload.fields().len() > 0,
{
    let writable_columns = schema().columns;
    assert(writable_columns[0] == "state"@);
    assert(writable_columns[1] == "formId"@);
    assert(writable_columns[2] == "formName"@);
    assert(writable_columns[3] == "formSource"@);
    assert(writable_columns[4] == "salvation"@);
    assert(writable_columns[5] == "contact"@);
    assert(writable_columns[6] == "blessing"@);
}

} // verus!
