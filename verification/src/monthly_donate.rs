//! Monthly donations, with one JSON-valued field: the donated items.

use vstd::prelude::*;
use vstd::std_specs::convert::FromSpecImpl;
use crate::codec::{bind_json, decode, decoded, opt_json};
use crate::descriptor::{names, EntityDescriptor, Schema};
use crate::patch::{
    assign,
    assign_int,
    assign_json,
    assign_text,
    insert_plan,
    set_if_int,
    set_if_json,
    set_if_text,
    set_to,
    update_plan,
    writable,
    writable_joined,
    writable_none,
    writable_single,
};
use crate::query::{
    contains_if_text,
    equals_if_int,
    equals_if_text,
    filter_int,
    filter_substring,
    filter_text,
    filterable,
    ListQuery,
    Listing,
};
use crate::repository::{
    begin_create_now,
    begin_delete,
    begin_get,
    begin_list,
    begin_update_now,
    create_begins,
    delete_begins,
    get_begins,
    list_begins,
    update_begins,
    Turn,
};
use crate::stamp::{is_utc_stamp};
use crate::statement::{assigned, Assigned, Assignment};
use crate::value::{opt_int, opt_text, text_of, Param, SqlValue};

verus! {

broadcast use {writable_joined, writable_none, writable_single};

/// A row of the monthly-donation table; `donate_items` holds its stored text.
#[derive(Debug, Clone)]
pub struct MonthlyDonate {
    pub id: i64,
    pub user_created: Option<String>,
    pub date_created: Option<String>,
    pub user_updated: Option<String>,
    pub date_updated: Option<String>,
    pub name: Option<String>,
    pub registration_id: Option<i64>,
    pub donate_id: Option<String>,
    pub donate_type: Option<String>,
    pub donate_items: Option<String>,
    pub memo: Option<String>,
    pub created_at: Option<String>,
    pub updated_at: Option<String>,
}

/// A monthly donation as shown to callers, `donate_items` decoded.
#[derive(Debug, Clone)]
pub struct MonthlyDonateResponse {
    pub id: i64,
    pub user_created: Option<String>,
    pub date_created: Option<String>,
    pub user_updated: Option<String>,
    pub date_updated: Option<String>,
    pub name: Option<String>,
    pub registration_id: Option<i64>,
    pub donate_id: Option<String>,
    pub donate_type: Option<String>,
    pub donate_items: Option<serde_json::Value>,
    pub memo: Option<String>,
    pub created_at: Option<String>,
    pub updated_at: Option<String>,
}

impl From<MonthlyDonate> for MonthlyDonateResponse {
    fn from(donate: MonthlyDonate) -> (response: Self) {
        let donate_items = decode(&donate.donate_items);
        MonthlyDonateResponse {
            id: donate.id,
            user_created: donate.user_created,
            date_created: donate.date_created,
            user_updated: donate.user_updated,
            date_updated: donate.date_updated,
            name: donate.name,
            registration_id: donate.registration_id,
            donate_id: donate.donate_id,
            donate_type: donate.donate_type,
            donate_items,
            memo: donate.memo,
            created_at: donate.created_at,
            updated_at: donate.updated_at,
        }
    }
}

impl FromSpecImpl<MonthlyDonate> for MonthlyDonateResponse {
    open spec fn obeys_from_spec() -> bool {
        true
    }

    /// Every field is shown as stored, but for the JSON-valued ones, which are
    /// decoded from their stored text.
    open spec fn from_spec(donate: MonthlyDonate) -> Self {
        MonthlyDonateResponse {
            id: donate.id,
            user_created: donate.user_created,
            date_created: donate.date_created,
            user_updated: donate.user_updated,
            date_updated: donate.date_updated,
            name: donate.name,
            registration_id: donate.registration_id,
            donate_id: donate.donate_id,
            donate_type: donate.donate_type,
            donate_items: decoded(text_of(donate.donate_items)),
            memo: donate.memo,
            created_at: donate.created_at,
            updated_at: donate.updated_at,
        }
    }
}

/// What a caller sends to create a monthly donation.
#[derive(Debug)]
pub struct CreateMonthlyDonateRequest {
    pub name: Option<String>,
    pub registration_id: Option<i64>,
    pub donate_id: Option<String>,
    pub donate_type: Option<String>,
    pub donate_items: Option<serde_json::Value>,
    pub memo: Option<String>,
    /// Accepted and not stored: the audit columns belong to the schema's owner.
    pub user_created: Option<String>,
}

/// What a caller sends to update a monthly donation: only the fields to
/// change.
#[derive(Debug)]
pub struct UpdateMonthlyDonateRequest {
    pub name: Option<String>,
    pub registration_id: Option<i64>,
    pub donate_id: Option<String>,
    pub donate_type: Option<String>,
    pub donate_items: Option<serde_json::Value>,
    pub memo: Option<String>,
    pub user_updated: Option<String>,
}

/// What a caller asks of a listing of monthly donations.
#[derive(Debug)]
pub struct MonthlyDonateQuery {
    pub name: Option<String>,
    pub registration_id: Option<i64>,
    pub donate_id: Option<String>,
    pub donate_type: Option<String>,
    pub limit: Option<i64>,
    pub offset: Option<i64>,
    pub sort: Option<String>,
}

/// Text that reads whole monthly donations.
pub const SELECT_MONTHLY_DONATES: &'static str =
    "SELECT id, user_created, CASE WHEN date_created IS NOT NULL THEN datetime(date_created / 1000, 'unixepoch') ELSE NULL END as date_created, user_updated, CASE WHEN date_updated IS NOT NULL THEN datetime(date_updated / 1000, 'unixepoch') ELSE NULL END as date_updated, name, registrationId, donateId, donateType, donateItems, memo, createdAt, updatedAt FROM monthlyDonateDB";

/// What the repository knows of monthly donations.
pub open spec fn schema() -> Schema {
    Schema {
        table: "monthlyDonateDB"@,
        label: "每月捐款記錄"@,
        noun: "捐款記錄"@,
        select_head: SELECT_MONTHLY_DONATES@,
        key_column: "id"@,
        natural_key: None,
        generated_key: false,
        default_sort: "createdAt"@,
        columns: seq![
            "name"@,
            "registrationId"@,
            "donateId"@,
            "donateType"@,
            "donateItems"@,
            "memo"@,
            "user_updated"@,
        ],
        sort_columns: seq![
            "id"@,
            "name"@,
            "registrationId"@,
            "donateId"@,
            "donateType"@,
            "donateItems"@,
            "memo"@,
            "createdAt"@,
            "updatedAt"@,
            "date_created"@,
            "date_updated"@,
        ],
        filter_columns: seq!["name"@, "registrationId"@, "donateId"@, "donateType"@],
        lookup_columns: seq!["donateId"@, "registrationId"@, "donateType"@],
    }
}

/// The descriptor of monthly donations.
pub fn descriptor() -> (desc: EntityDescriptor)
    ensures
        desc@ == schema(),
{
    let columns = vec![
        "name",
        "registrationId",
        "donateId",
        "donateType",
        "donateItems",
        "memo",
        "user_updated",
    ];
    let sort_columns = vec![
        "id",
        "name",
        "registrationId",
        "donateId",
        "donateType",
        "donateItems",
        "memo",
        "createdAt",
        "updatedAt",
        "date_created",
        "date_updated",
    ];
    let filter_columns = vec!["name", "registrationId", "donateId", "donateType"];
    let lookup_columns = vec!["donateId", "registrationId", "donateType"];
    proof {
        assert(names(columns@) =~= schema().columns);
        assert(names(sort_columns@) =~= schema().sort_columns);
        assert(names(filter_columns@) =~= schema().filter_columns);
        assert(names(lookup_columns@) =~= schema().lookup_columns);
    }
    EntityDescriptor {
        table: "monthlyDonateDB",
        label: "每月捐款記錄",
        noun: "捐款記錄",
        select_head: SELECT_MONTHLY_DONATES,
        key_column: "id",
        natural_key: None,
        generated_key: false,
        default_sort: "createdAt",
        columns,
        sort_columns,
        filter_columns,
        lookup_columns,
    }
}

impl MonthlyDonateQuery {
    /// The listing asked for: a substring filter on `name`, and one exact-match
    /// filter for each of `registrationId`, `donateId` and `donateType`, each only
    /// if present.
    pub open spec fn listing(&self) -> Listing {
        Listing {
            filters: contains_if_text("name"@, self.name)
                + equals_if_int("registrationId"@, self.registration_id)
                + equals_if_text("donateId"@, self.donate_id)
                + equals_if_text("donateType"@, self.donate_type),
            sort: text_of(self.sort),
            limit: self.limit,
            offset: self.offset,
        }
    }

    /// The listing asked for.
    pub fn list_query(&self) -> (query: ListQuery)
        ensures
            query@ == self.listing(),
    {
        let mut filters = Vec::new();
        filter_substring(&mut filters, "name", &self.name);
        filter_int(&mut filters, "registrationId", &self.registration_id);
        filter_text(&mut filters, "donateId", &self.donate_id);
        filter_text(&mut filters, "donateType", &self.donate_type);
        assert(crate::query::conditions(filters@) =~= self.listing().filters);
        ListQuery { filters, sort: self.sort.clone(), limit: self.limit, offset: self.offset }
    }
}

impl CreateMonthlyDonateRequest {
    /// The fields of the row to create, in column order; an absent field is
    /// stored as NULL.
    pub open spec fn fields(&self) -> Seq<Assigned> {
        set_to("name"@, opt_text(self.name))
            + set_to("registrationId"@, opt_int(self.registration_id))
            + set_to("donateId"@, opt_text(self.donate_id))
            + set_to("donateType"@, opt_text(self.donate_type))
            + set_to("donateItems"@, opt_json(self.donate_items))
            + set_to("memo"@, opt_text(self.memo))
    }

    /// The fields of the row to create.
    pub fn assignments(&self) -> (list: Vec<Assignment>)
        ensures
            assigned(list@) == self.fields(),
    {
        let mut list = Vec::new();
        assign(&mut list, "name", SqlValue::from_opt_text(&self.name));
        assign(&mut list, "registrationId", SqlValue::from_opt_int(&self.registration_id));
        assign(&mut list, "donateId", SqlValue::from_opt_text(&self.donate_id));
        assign(&mut list, "donateType", SqlValue::from_opt_text(&self.donate_type));
        assign(&mut list, "donateItems", bind_json(&self.donate_items));
        assign(&mut list, "memo", SqlValue::from_opt_text(&self.memo));
        assert(assigned(list@) =~= self.fields());
        list
    }
}

impl UpdateMonthlyDonateRequest {
    /// The fields to change: those that are present, in column order.
    pub open spec fn fields(&self) -> Seq<Assigned> {
        set_if_text("name"@, self.name)
            + set_if_int("registrationId"@, self.registration_id)
            + set_if_text("donateId"@, self.donate_id)
            + set_if_text("donateType"@, self.donate_type)
            + set_if_json("donateItems"@, self.donate_items)
            + set_if_text("memo"@, self.memo)
            + set_if_text("user_updated"@, self.user_updated)
    }

    /// The fields to change.
    pub fn patch(&self) -> (list: Vec<Assignment>)
        ensures
            assigned(list@) == self.fields(),
    {
        let mut list = Vec::new();
        assign_text(&mut list, "name", &self.name);
        assign_int(&mut list, "registrationId", &self.registration_id);
        assign_text(&mut list, "donateId", &self.donate_id);
        assign_text(&mut list, "donateType", &self.donate_type);
        assign_json(&mut list, "donateItems", &self.donate_items);
        assign_text(&mut list, "memo", &self.memo);
        assign_text(&mut list, "user_updated", &self.user_updated);
        assert(assigned(list@) =~= self.fields());
        list
    }
}

/// Begins the listing of monthly donations.
pub fn get_all_monthly_donates(params: &MonthlyDonateQuery) -> (turn: Turn<MonthlyDonate>)
    ensures
        list_begins(schema(), params.listing(), turn),
{
    begin_list(&descriptor(), &params.list_query())
}

/// Begins the lookup of the monthly donation with donation number
/// `donate_id`.
pub fn get_monthly_donate_by_donate_id(donate_id: &str) -> (turn: Turn<MonthlyDonate>)
    ensures
        get_begins(schema(), "donateId"@, Param::Text(donate_id@), turn),
{
    begin_get(&descriptor(), "donateId", SqlValue::text(donate_id))
}

/// Begins the lookup of the first monthly donation of the registration
/// `registration_id`. Which one is first among several is left to the store.
pub fn get_monthly_donate_by_registration_id(registration_id: i64) -> (turn: Turn<MonthlyDonate>)
    ensures
        get_begins(schema(), "registrationId"@, Param::Int(registration_id as int), turn),
{
    begin_get(&descriptor(), "registrationId", SqlValue::Int(registration_id))
}

/// Begins the lookup of the first monthly donation of type `donate_type`.
/// Which one is first among several is left to the store.
pub fn get_monthly_donate_by_donate_type(donate_type: &str) -> (turn: Turn<MonthlyDonate>)
    ensures
        get_begins(schema(), "donateType"@, Param::Text(donate_type@), turn),
{
    begin_get(&descriptor(), "donateType", SqlValue::text(donate_type))
}

/// Begins the lookup of the monthly donation with identity `id`.
pub fn get_monthly_donate_by_id(id: i64) -> (turn: Turn<MonthlyDonate>)
    ensures
        get_begins(schema(), "id"@, Param::Int(id as int), turn),
{
    begin_get(&descriptor(), "id", SqlValue::Int(id))
}

/// Begins the create of a monthly donation, stamped with the current time.
pub fn create_monthly_donate(payload: &CreateMonthlyDonateRequest) -> (turn: Turn<MonthlyDonate>)
    ensures
        exists|now: Seq<char>, fresh_key: Seq<char>|
            {
                &&& is_utc_stamp(now)
                &&& #[trigger] create_begins(schema(), payload.fields(), now, fresh_key, turn)
            },
{
    begin_create_now(&descriptor(), &payload.assignments())
}

/// Begins the update of the monthly donation with identity `id`, stamped with the
/// current time.
pub fn update_monthly_donate(id: i64, payload: &UpdateMonthlyDonateRequest) -> (turn: Turn<MonthlyDonate>)
    ensures
        exists|now: Seq<char>|
            is_utc_stamp(now) && #[trigger] update_begins(
                schema(),
                Param::Int(id as int),
                payload.fields(),
                now,
                turn,
            ),
{
    begin_update_now(&descriptor(), SqlValue::Int(id), &payload.patch())
}

/// Begins the delete of the monthly donation with identity `id`.
pub fn delete_monthly_donate(id: i64) -> (turn: Turn<MonthlyDonate>)
    ensures
        delete_begins(schema(), Param::Int(id as int), turn),
{
    begin_delete(&descriptor(), SqlValue::Int(id))
}

/// The filters of a typed query are all on the allow-list: a listing of
/// monthly donations is rejected only for its sort or its page bounds.
pub proof fn filters_are_allowed(params: MonthlyDonateQuery)
    ensures
        filterable(schema(), params.listing().filters),
{
    let allowed = schema().filter_columns;
    assert(allowed[0] == "name"@);
    assert(allowed[1] == "registrationId"@);
    assert(allowed[2] == "donateId"@);
    assert(allowed[3] == "donateType"@);
}

/// The fields of a typed create request are all writable: the insert is
/// always planned.
pub proof fn create_is_planned(payload: CreateMonthlyDonateRequest, now: Seq<char>, fresh_key: Seq<char>)
    ensures
        writable(schema(), payload.fields()),
        insert_plan(schema(), fresh_key, payload.fields(), now) is Ok,
{
    let writable_columns = schema().columns;
    assert(writable_columns[0] == "name"@);
    assert(writable_columns[1] == "registrationId"@);
    assert(writable_columns[2] == "donateId"@);
    assert(writable_columns[3] == "donateType"@);
    assert(writable_columns[4] == "donateItems"@);
    assert(writable_columns[5] == "memo"@);
}

/// The fields of a typed update request are all writable: the update is
/// rejected only when the request names no field.
pub proof fn update_is_planned_unless_empty(payload: UpdateMonthlyDonateRequest, id: Param, now: Seq<char>)
    ensures
        writable(schema(), payload.fields()),
        update_plan(schema(), id, payload.fields(), now) is Ok <==> payload.fields().len() > 0,
{
    let writable_columns = schema().columns;
    assert(writable_columns[0] == "name"@);
    assert(writable_columns[1] == "registrationId"@);
    assert(writable_columns[2] == "donateId"@);
    assert(writable_columns[3] == "donateType"@);
    assert(writable_columns[4] == "donateItems"@);
    assert(writable_columns[5] == "memo"@);
    assert(writable_columns[6] == "user_updated"@);
}

} // verus!
