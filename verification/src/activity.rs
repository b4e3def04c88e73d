//! Activities: events with a caller-assigned natural key, `activityId`.

use vstd::prelude::*;
use vstd::std_specs::convert::FromSpecImpl;
use vstd::string::StringExecFns;
use crate::descriptor::{names, EntityDescriptor, Schema};
use crate::patch::{
    assign,
    assign_int,
    assign_text,
    insert_plan,
    set_if_int,
    set_if_text,
    set_to,
    update_plan,
    writable,
    writable_joined,
    writable_none,
    writable_single,
};
use crate::query::{equals_if_text, filter_text, filterable, ListQuery, Listing};
use crate::repository::{
    begin_create_now,
    begin_delete,
    begin_get,
    begin_list,
    begin_update_now,
    create_begins,
    delete_begins,
    get_begins,
    list_begins,
    update_begins,
    value_of,
    Turn,
};
use crate::stamp::is_utc_stamp;
use crate::statement::{assigned, Assigned, Assignment};
use crate::value::{opt_text, text_of, Param, SqlValue};

verus! {

broadcast use {writable_joined, writable_none, writable_single};

/// A row of the activity table.
#[derive(Debug, Clone)]
pub struct Activity {
    pub id: i64,
    pub user_created: Option<String>,
    pub date_created: Option<String>,
    pub user_updated: Option<String>,
    pub date_updated: Option<String>,
    pub activity_id: Option<String>,
    pub name: Option<String>,
    pub item_type: Option<String>,
    pub participants: Option<i32>,
    pub date: Option<String>,
    pub state: Option<String>,
    pub icon: Option<String>,
    pub description: Option<String>,
    pub location: Option<String>,
    pub created_at: Option<String>,
    pub updated_at: Option<String>,
}

/// An activity as shown to callers.
#[derive(Debug, Clone)]
pub struct ActivityResponse {
    pub id: i64,
    pub user_created: Option<String>,
    pub date_created: Option<String>,
    pub user_updated: Option<String>,
    pub date_updated: Option<String>,
    pub activity_id: Option<String>,
    pub name: Option<String>,
    pub item_type: Option<String>,
    pub participants: Option<i32>,
    pub date: Option<String>,
    pub state: Option<String>,
    pub icon: Option<String>,
    pub description: Option<String>,
    pub location: Option<String>,
    pub created_at: Option<String>,
    pub updated_at: Option<String>,
}

impl From<Activity> for ActivityResponse {
    fn from(activity: Activity) -> (response: Self) {
        ActivityResponse {
            id: activity.id,
            user_created: activity.user_created,
            date_created: activity.date_created,
            user_updated: activity.user_updated,
            date_updated: activity.date_updated,
            activity_id: activity.activity_id,
            name: activity.name,
            item_type: activity.item_type,
            participants: activity.participants,
            date: activity.date,
            state: activity.state,
            icon: activity.icon,
            description: activity.description,
            location: activity.location,
            created_at: activity.created_at,
            updated_at: activity.updated_at,
        }
    }
}

impl FromSpecImpl<Activity> for ActivityResponse {
    open spec fn obeys_from_spec() -> bool {
        true
    }

    /// Every field is shown as stored.
    open spec fn from_spec(activity: Activity) -> Self {
        ActivityResponse {
            id: activity.id,
            user_created: activity.user_created,
            date_created: activity.date_created,
            user_updated: activity.user_updated,
            date_updated: activity.date_updated,
            activity_id: activity.activity_id,
            name: activity.name,
            item_type: activity.item_type,
            participants: activity.participants,
            date: activity.date,
            state: activity.state,
            icon: activity.icon,
            description: activity.description,
            location: activity.location,
            created_at: activity.created_at,
            updated_at: activity.updated_at,
        }
    }
}

/// What a caller sends to create an activity.
#[derive(Debug)]
pub struct CreateActivityRequest {
    pub activity_id: String,
    pub name: String,
    pub item_type: String,
    pub participants: i32,
    pub date: String,
    pub state: String,
    pub icon: String,
    pub description: Option<String>,
    pub location: Option<String>,
}

/// What a caller sends to update an activity: only the fields to change.
#[derive(Debug)]
pub struct UpdateActivityRequest {
    pub name: Option<String>,
    pub item_type: Option<String>,
    pub participants: Option<i32>,
    pub date: Option<String>,
    pub state: Option<String>,
    pub icon: Option<String>,
    pub description: Option<String>,
    pub location: Option<String>,
}

/// What a caller asks of a listing of activities.
#[derive(Debug)]
pub struct ActivityQuery {
    pub state: Option<String>,
    pub item_type: Option<String>,
    pub limit: Option<i64>,
    pub offset: Option<i64>,
    pub sort: Option<String>,
}

/// Type of an activity whose creator names none.
pub fn default_item_type() -> (r: String)
    ensures
        r@ == "ceremony"@,
{
    String::from_str("ceremony")
}

/// State of an activity whose creator names none.
pub fn default_state() -> (r: String)
    ensures
        r@ == "upcoming"@,
{
    String::from_str("upcoming")
}

/// Icon of an activity whose creator names none.
pub fn default_icon() -> (r: String)
    ensures
        r@ == "🕯️"@,
{
    String::from_str("🕯️")
}

/// Text that reads whole activities.
pub const SELECT_ACTIVITIES: &'static str =
    "SELECT id, user_created, CASE WHEN date_created IS NOT NULL THEN datetime(date_created / 1000, 'unixepoch') ELSE NULL END as date_created, user_updated, CASE WHEN date_updated IS NOT NULL THEN datetime(date_updated / 1000, 'unixepoch') ELSE NULL END as date_updated, activityId, name, item_type, participants, date, state, icon, description, location, createdAt, updatedAt FROM activityDB";

/// What the repository knows of activities.
pub open spec fn schema() -> Schema {
    Schema {
        table: "activityDB"@,
        label: "活動"@,
        noun: "活動"@,
        select_head: SELECT_ACTIVITIES@,
        key_column: "id"@,
        natural_key: Some("activityId"@),
        generated_key: false,
        default_sort: "date"@,
        columns: seq![
            "activityId"@,
            "name"@,
            "item_type"@,
            "participants"@,
            "date"@,
            "state"@,
            "icon"@,
            "description"@,
            "location"@,
        ],
        sort_columns: seq![
            "id"@,
            "activityId"@,
            "name"@,
            "item_type"@,
            "participants"@,
            "date"@,
            "state"@,
            "icon"@,
            "description"@,
            "location"@,
            "createdAt"@,
            "updatedAt"@,
            "date_created"@,
            "date_updated"@,
        ],
        filter_columns: seq!["state"@, "item_type"@],
        lookup_columns: seq!["activityId"@],
    }
}

/// The descriptor of activities.
pub fn descriptor() -> (desc: EntityDescriptor)
    ensures
        desc@ == schema(),
{
    let columns = vec![
        "activityId",
        "name",
        "item_type",
        "participants",
        "date",
        "state",
        "icon",
        "description",
        "location",
    ];
    let sort_columns = vec![
        "id",
        "activityId",
        "name",
        "item_type",
        "participants",
        "date",
        "state",
        "icon",
        "description",
        "location",
        "createdAt",
        "updatedAt",
        "date_created",
        "date_updated",
    ];
    let filter_columns = vec!["state", "item_type"];
    let lookup_columns = vec!["activityId"];
    proof {
        assert(names(columns@) =~= schema().columns);
        assert(names(sort_columns@) =~= schema().sort_columns);
        assert(names(filter_columns@) =~= schema().filter_columns);
        assert(names(lookup_columns@) =~= schema().lookup_columns);
    }
    EntityDescriptor {
        table: "activityDB",
        label: "活動",
        noun: "活動",
        select_head: SELECT_ACTIVITIES,
        key_column: "id",
        natural_key: Some("activityId"),
        generated_key: false,
        default_sort: "date",
        columns,
        sort_columns,
        filter_columns,
        lookup_columns,
    }
}

/// An optional count as an optional integer.
pub open spec fn widened(field: Option<i32>) -> Option<i64> {
    match field {
        Some(n) => Some(n as i64),
        None => None,
    }
}

fn widen(field: Option<i32>) -> (r: Option<i64>)
    ensures
        r == widened(field),
{
    match field {
        Some(n) => Some(n as i64),
        None => None,
    }
}

impl ActivityQuery {
    /// The listing asked for: one exact-match filter for each of `state` and
    /// `itemType` that is present.
    pub open spec fn listing(&self) -> Listing {
        Listing {
            filters: equals_if_text("state"@, self.state) + equals_if_text(
                "item_type"@,
                self.item_type,
            ),
            sort: text_of(self.sort),
            limit: self.limit,
            offset: self.offset,
        }
    }

    /// The listing asked for.
    pub fn list_query(&self) -> (query: ListQuery)
        ensures
            query@ == self.listing(),
    {
        let mut filters = Vec::new();
        filter_text(&mut filters, "state", &self.state);
        filter_text(&mut filters, "item_type", &self.item_type);
        assert(crate::query::conditions(filters@) =~= self.listing().filters);
        ListQuery { filters, sort: self.sort.clone(), limit: self.limit, offset: self.offset }
    }
}

impl CreateActivityRequest {
    /// The fields of the row to create, in column order.
    pub open spec fn fields(&self) -> Seq<Assigned> {
        set_to("activityId"@, Param::Text(self.activity_id@)) + set_to(
            "name"@,
            Param::Text(self.name@),
        ) + set_to("item_type"@, Param::Text(self.item_type@)) + set_to(
            "participants"@,
            Param::Int(self.participants as int),
        ) + set_to("date"@, Param::Text(self.date@)) + set_to("state"@, Param::Text(self.state@))
            + set_to("icon"@, Param::Text(self.icon@)) + set_to(
            "description"@,
            opt_text(self.description),
        ) + set_to("location"@, opt_text(self.location))
    }

    /// The fields of the row to create.
    pub fn assignments(&self) -> (list: Vec<Assignment>)
        ensures
            assigned(list@) == self.fields(),
    {
        let mut list = Vec::new();
        assign(&mut list, "activityId", SqlValue::Text(self.activity_id.clone()));
        assign(&mut list, "name", SqlValue::Text(self.name.clone()));
        assign(&mut list, "item_type", SqlValue::Text(self.item_type.clone()));
        assign(&mut list, "participants", SqlValue::Int(self.participants as i64));
        assign(&mut list, "date", SqlValue::Text(self.date.clone()));
        assign(&mut list, "state", SqlValue::Text(self.state.clone()));
        assign(&mut list, "icon", SqlValue::Text(self.icon.clone()));
        assign(&mut list, "description", SqlValue::from_opt_text(&self.description));
        assign(&mut list, "location", SqlValue::from_opt_text(&self.location));
        assert(assigned(list@) =~= self.fields());
        list
    }
}

impl UpdateActivityRequest {
    /// The fields to change: those that are present, in column order.
    pub open spec fn fields(&self) -> Seq<Assigned> {
        set_if_text("name"@, self.name) + set_if_text("item_type"@, self.item_type) + set_if_int(
            "participants"@,
            widened(self.participants),
        ) + set_if_text("date"@, self.date) + set_if_text("state"@, self.state) + set_if_text(
            "icon"@,
            self.icon,
        ) + set_if_text("description"@, self.description) + set_if_text("location"@, self.location)
    }

    /// The fields to change.
    pub fn patch(&self) -> (list: Vec<Assignment>)
        ensures
            assigned(list@) == self.fields(),
    {
        let mut list = Vec::new();
        assign_text(&mut list, "name", &self.name);
        assign_text(&mut list, "item_type", &self.item_type);
        assign_int(&mut list, "participants", &widen(self.participants));
        assign_text(&mut list, "date", &self.date);
        assign_text(&mut list, "state", &self.state);
        assign_text(&mut list, "icon", &self.icon);
        assign_text(&mut list, "description", &self.description);
        assign_text(&mut list, "location", &self.location);
        assert(assigned(list@) =~= self.fields());
        list
    }
}

/// Begins the listing of activities.
pub fn get_all_activities(params: &ActivityQuery) -> (turn: Turn<Activity>)
    ensures
        list_begins(schema(), params.listing(), turn),
{
    begin_list(&descriptor(), &params.list_query())
}

/// Begins the lookup of the activity with identity `id`.
pub fn get_activity_by_id(id: i64) -> (turn: Turn<Activity>)
    ensures
        get_begins(schema(), "id"@, Param::Int(id as int), turn),
{
    begin_get(&descriptor(), "id", SqlValue::Int(id))
}

/// Begins the lookup of the activity with natural key `activity_id`.
pub fn get_activity_by_activity_id(activity_id: &str) -> (turn: Turn<Activity>)
    ensures
        get_begins(schema(), "activityId"@, Param::Text(activity_id@), turn),
{
    begin_get(&descriptor(), "activityId", SqlValue::text(activity_id))
}

/// Begins the create of an activity, stamped with the current time.
pub fn create_activity(payload: &CreateActivityRequest) -> (turn: Turn<Activity>)
    ensures
        exists|now: Seq<char>, fresh_key: Seq<char>|
            is_utc_stamp(now) && #[trigger] create_begins(
                schema(),
                payload.fields(),
                now,
                fresh_key,
                turn,
            ),
{
    begin_create_now(&descriptor(), &payload.assignments())
}

/// Begins the update of the activity with identity `id`, stamped with the
/// current time.
pub fn update_activity(id: i64, payload: &UpdateActivityRequest) -> (turn: Turn<Activity>)
    ensures
        exists|now: Seq<char>|
            is_utc_stamp(now) && #[trigger] update_begins(
                schema(),
                Param::Int(id as int),
                payload.fields(),
                now,
                turn,
            ),
{
    begin_update_now(&descriptor(), SqlValue::Int(id), &payload.patch())
}

/// Begins the delete of the activity with identity `id`.
pub fn delete_activity(id: i64) -> (turn: Turn<Activity>)
    ensures
        delete_begins(schema(), Param::Int(id as int), turn),
{
    begin_delete(&descriptor(), SqlValue::Int(id))
}

/// The filters of a typed query are all on the allow-list: a listing of
/// activities is rejected only for its sort or its page bounds.
pub proof fn filters_are_allowed(params: ActivityQuery)
    ensures
        filterable(schema(), params.listing().filters),
{
    let allowed = schema().filter_columns;
    assert(allowed[0] == "state"@);
    assert(allowed[1] == "item_type"@);
}

/// The fields of a typed create request are all writable and give the natural
/// key its value: the insert is always planned.
pub proof fn create_is_planned(payload: CreateActivityRequest, now: Seq<char>, fresh_key: Seq<char>)
    ensures
        writable(schema(), payload.fields()),
        insert_plan(schema(), fresh_key, payload.fields(), now) is Ok,
        value_of(payload.fields(), "activityId"@) == Some(Param::Text(payload.activity_id@)),
{
    let writable_columns = schema().columns;
    assert(writable_columns[0] == "activityId"@);
    assert(writable_columns[1] == "name"@);
    assert(writable_columns[2] == "item_type"@);
    assert(writable_columns[3] == "participants"@);
    assert(writable_columns[4] == "date"@);
    assert(writable_columns[5] == "state"@);
    assert(writable_columns[6] == "icon"@);
    assert(writable_columns[7] == "description"@);
    assert(writable_columns[8] == "location"@);
}

/// The fields of a typed update request are all writable: the update is
/// rejected only when the request names no field.
pub proof fn update_is_planned_unless_empty(payload: UpdateActivityRequest, id: Param, now: Seq<char>)
    ensures
        writable(schema(), payload.fields()),
        update_plan(schema(), id, payload.fields(), now) is Ok <==> payload.fields().len() > 0,
{
    let writable_columns = schema().columns;
    assert(writable_columns[1] == "name"@);
    assert(writable_columns[2] == "item_type"@);
    assert(writable_columns[3] == "participants"@);
    assert(writable_columns[4] == "date"@);
    assert(writable_columns[5] == "state"@);
    assert(writable_columns[6] == "icon"@);
    assert(writable_columns[7] == "description"@);
    assert(writable_columns[8] == "location"@);
}

} // verus!
