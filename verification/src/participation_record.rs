//! Participation records: the part a registration takes in an activity, with
//! its amounts, receipt, accounting and payment, and two JSON-valued fields.

use vstd::prelude::*;
use vstd::std_specs::convert::FromSpecImpl;
use crate::codec::{bind_json, decode, decoded, opt_json};
use crate::descriptor::{names, EntityDescriptor, Schema};
use crate::patch::{
    assign,
    assign_int,
    assign_json,
    assign_text,
    insert_plan,
    set_if_int,
    set_if_json,
    set_if_text,
    set_to,
    update_plan,
    writable,
    writable_joined,
    writable_none,
    writable_single,
};
use crate::query::{
    equals_if_int,
    equals_if_text,
    filter_int,
    filter_text,
    filterable,
    ListQuery,
    Listing,
};
use crate::repository::{
    begin_create_now,
    begin_delete,
    begin_get,
    begin_get_all,
    begin_list,
    begin_update_now,
    create_begins,
    delete_begins,
    get_all_begins,
    get_begins,
    list_begins,
    update_begins,
    Turn,
};
use crate::stamp::{is_utc_stamp};
use crate::statement::{assigned, Assigned, Assignment};
use crate::value::{opt_int, opt_text, text_of, Param, SqlValue};

verus! {

broadcast use {writable_joined, writable_none, writable_single};

/// A row of the participation-record table; the JSON-valued fields hold their
/// stored text, and amounts are integers in minor units.
#[derive(Debug, Clone)]
pub struct ParticipationRecord {
    pub id: i64,
    pub user_created: Option<String>,
    pub date_created: Option<String>,
    pub user_updated: Option<String>,
    pub date_updated: Option<String>,
    pub registration_id: Option<i64>,
    pub activity_id: Option<i64>,
    pub state: Option<String>,
    pub items: Option<String>,
    pub contact: Option<String>,
    pub total_amount: Option<i64>,
    pub discount_amount: Option<i64>,
    pub final_amount: Option<i64>,
    pub paid_amount: Option<i64>,
    pub need_receipt: Option<String>,
    pub receipt_number: Option<String>,
    pub receipt_issued: Option<String>,
    pub receipt_issued_at: Option<String>,
    pub receipt_issued_by: Option<String>,
    pub accounting_state: Option<String>,
    pub accounting_date: Option<String>,
    pub accounting_by: Option<String>,
    pub accounting_notes: Option<String>,
    pub payment_state: Option<String>,
    pub payment_method: Option<String>,
    pub payment_date: Option<String>,
    pub payment_notes: Option<String>,
    pub notes: Option<String>,
    pub created_at: Option<String>,
    pub updated_at: Option<String>,
}

/// A participation record as shown to callers, the JSON-valued fields
/// decoded.
#[derive(Debug, Clone)]
pub struct ParticipationRecordResponse {
    pub id: i64,
    pub user_created: Option<String>,
    pub date_created: Option<String>,
    pub user_updated: Option<String>,
    pub date_updated: Option<String>,
    pub registration_id: Option<i64>,
    pub activity_id: Option<i64>,
    pub state: Option<String>,
    pub items: Option<serde_json::Value>,
    pub contact: Option<serde_json::Value>,
    pub total_amount: Option<i64>,
    pub discount_amount: Option<i64>,
    pub final_amount: Option<i64>,
    pub paid_amount: Option<i64>,
    pub need_receipt: Option<String>,
    pub receipt_number: Option<String>,
    pub receipt_issued: Option<String>,
    pub receipt_issued_at: Option<String>,
    pub receipt_issued_by: Option<String>,
    pub accounting_state: Option<String>,
    pub accounting_date: Option<String>,
    pub accounting_by: Option<String>,
    pub accounting_notes: Option<String>,
    pub payment_state: Option<String>,
    pub payment_method: Option<String>,
    pub payment_date: Option<String>,
    pub payment_notes: Option<String>,
    pub notes: Option<String>,
    pub created_at: Option<String>,
    pub updated_at: Option<String>,
}

impl From<ParticipationRecord> for ParticipationRecordResponse {
    fn from(record: ParticipationRecord) -> (response: Self) {
        let items = decode(&record.items);
        let contact = decode(&record.contact);
        ParticipationRecordResponse {
            id: record.id,
            user_created: record.user_created,
            date_created: record.date_created,
            user_updated: record.user_updated,
            date_updated: record.date_updated,
            registration_id: record.registration_id,
            activity_id: record.activity_id,
            state: record.state,
            items,
            contact,
            total_amount: record.total_amount,
            discount_amount: record.discount_amount,
            final_amount: record.final_amount,
            paid_amount: record.paid_amount,
            need_receipt: record.need_receipt,
            receipt_number: record.receipt_number,
            receipt_issued: record.receipt_issued,
            receipt_issued_at: record.receipt_issued_at,
            receipt_issued_by: record.receipt_issued_by,
            accounting_state: record.accounting_state,
            accounting_date: record.accounting_date,
            accounting_by: record.accounting_by,
            accounting_notes: record.accounting_notes,
            payment_state: record.payment_state,
            payment_method: record.payment_method,
            payment_date: record.payment_date,
            payment_notes: record.payment_notes,
            notes: record.notes,
            created_at: record.created_at,
            updated_at: record.updated_at,
        }
    }
}

impl FromSpecImpl<ParticipationRecord> for ParticipationRecordResponse {
    open spec fn obeys_from_spec() -> bool {
        true
    }

    /// Every field is shown as stored, but for the JSON-valued ones, which are
    /// decoded from their stored text.
    open spec fn from_spec(record: ParticipationRecord) -> Self {
        ParticipationRecordResponse {
            id: record.id,
            user_created: record.user_created,
            date_created: record.date_created,
            user_updated: record.user_updated,
            date_updated: record.date_updated,
            registration_id: record.registration_id,
            activity_id: record.activity_id,
            state: record.state,
            items: decoded(text_of(record.items)),
            contact: decoded(text_of(record.contact)),
            total_amount: record.total_amount,
            discount_amount: record.discount_amount,
            final_amount: record.final_amount,
            paid_amount: record.paid_amount,
            need_receipt: record.need_receipt,
            receipt_number: record.receipt_number,
            receipt_issued: record.receipt_issued,
            receipt_issued_at: record.receipt_issued_at,
            receipt_issued_by: record.receipt_issued_by,
            accounting_state: record.accounting_state,
            accounting_date: record.accounting_date,
            accounting_by: record.accounting_by,
            accounting_notes: record.accounting_notes,
            payment_state: record.payment_state,
            payment_method: record.payment_method,
            payment_date: record.payment_date,
            payment_notes: record.payment_notes,
            notes: record.notes,
            created_at: record.created_at,
            updated_at: record.updated_at,
        }
    }
}

/// What a caller sends to create a participation record.
#[derive(Debug)]
pub struct CreateParticipationRecordRequest {
    pub registration_id: Option<i64>,
    pub activity_id: Option<i64>,
    pub state: Option<String>,
    pub items: Option<serde_json::Value>,
    pub contact: Option<serde_json::Value>,
    pub total_amount: Option<i64>,
    pub discount_amount: Option<i64>,
    pub final_amount: Option<i64>,
    pub paid_amount: Option<i64>,
    pub need_receipt: Option<String>,
    pub receipt_number: Option<String>,
    pub receipt_issued: Option<String>,
    pub receipt_issued_at: Option<String>,
    pub receipt_issued_by: Option<String>,
    pub accounting_state: Option<String>,
    pub accounting_date: Option<String>,
    pub accounting_by: Option<String>,
    pub accounting_notes: Option<String>,
    pub payment_state: Option<String>,
    pub payment_method: Option<String>,
    pub payment_date: Option<String>,
    pub payment_notes: Option<String>,
    pub notes: Option<String>,
}

/// What a caller sends to update a participation record: only the fields to
/// change.
#[derive(Debug)]
pub struct UpdateParticipationRecordRequest {
    pub registration_id: Option<i64>,
    pub activity_id: Option<i64>,
    pub state: Option<String>,
    pub items: Option<serde_json::Value>,
    pub contact: Option<serde_json::Value>,
    pub total_amount: Option<i64>,
    pub discount_amount: Option<i64>,
    pub final_amount: Option<i64>,
    pub paid_amount: Option<i64>,
    pub need_receipt: Option<String>,
    pub receipt_number: Option<String>,
    pub receipt_issued: Option<String>,
    pub receipt_issued_at: Option<String>,
    pub receipt_issued_by: Option<String>,
    pub accounting_state: Option<String>,
    pub accounting_date: Option<String>,
    pub accounting_by: Option<String>,
    pub accounting_notes: Option<String>,
    pub payment_state: Option<String>,
    pub payment_method: Option<String>,
    pub payment_date: Option<String>,
    pub payment_notes: Option<String>,
    pub notes: Option<String>,
    pub user_updated: Option<String>,
}

/// What a caller asks of a listing of participation records.
#[derive(Debug)]
pub struct ParticipationRecordQuery {
    pub registration_id: Option<i64>,
    pub activity_id: Option<i64>,
    pub state: Option<String>,
    pub payment_state: Option<String>,
    pub accounting_state: Option<String>,
    pub limit: Option<i64>,
    pub offset: Option<i64>,
    pub sort: Option<String>,
}

/// Text that reads whole participation records.
pub const SELECT_PARTICIPATION_RECORDS: &'static str =
    "SELECT id, user_created, CASE WHEN date_created IS NOT NULL THEN datetime(date_created / 1000, 'unixepoch') ELSE NULL END as date_created, user_updated, CASE WHEN date_updated IS NOT NULL THEN datetime(date_updated / 1000, 'unixepoch') ELSE NULL END as date_updated, registrationId, activityId, state, items, contact, totalAmount, discountAmount, finalAmount, paidAmount, needReceipt, receiptNumber, receiptIssued, receiptIssuedAt, receiptIssuedBy, accountingState, accountingDate, accountingBy, accountingNotes, paymentState, paymentMethod, paymentDate, paymentNotes, notes, createdAt, updatedAt FROM participationRecordDB";

/// What the repository knows of participation records.
pub open spec fn schema() -> Schema {
    Schema {
        table: "participationRecordDB"@,
        label: "參與記錄"@,
        noun: "參與記錄"@,
        select_head: SELECT_PARTICIPATION_RECORDS@,
        key_column: "id"@,
        natural_key: None,
        generated_key: false,
        default_sort: "createdAt"@,
        columns: seq![
            "registrationId"@,
            "activityId"@,
            "state"@,
            "items"@,
            "contact"@,
            "totalAmount"@,
            "discountAmount"@,
            "finalAmount"@,
            "paidAmount"@,
            "needReceipt"@,
            "receiptNumber"@,
            "receiptIssued"@,
            "receiptIssuedAt"@,
            "receiptIssuedBy"@,
            "accountingState"@,
            "accountingDate"@,
            "accountingBy"@,
            "accountingNotes"@,
            "paymentState"@,
            "paymentMethod"@,
            "paymentDate"@,
            "paymentNotes"@,
            "notes"@,
            "user_updated"@,
        ],
        sort_columns: seq![
            "id"@,
            "registrationId"@,
            "activityId"@,
            "state"@,
            "items"@,
            "contact"@,
            "totalAmount"@,
            "discountAmount"@,
            "finalAmount"@,
            "paidAmount"@,
            "needReceipt"@,
            "receiptNumber"@,
            "receiptIssued"@,
            "receiptIssuedAt"@,
            "receiptIssuedBy"@,
            "accountingState"@,
            "accountingDate"@,
            "accountingBy"@,
            "accountingNotes"@,
            "paymentState"@,
            "paymentMethod"@,
            "paymentDate"@,
            "paymentNotes"@,
            "notes"@,
            "createdAt"@,
            "updatedAt"@,
            "date_created"@,
            "date_updated"@,
        ],
        filter_columns: seq!["registrationId"@, "activityId"@, "state"@, "paymentState"@, "accountingState"@],
        lookup_columns: seq!["registrationId"@, "activityId"@],
    }
}

/// The descriptor of participation records.
pub fn descriptor() -> (desc: EntityDescriptor)
    ensures
        desc@ == schema(),
{
    let columns = vec![
        "registrationId",
        "activityId",
        "state",
        "items",
        "contact",
        "totalAmount",
        "discountAmount",
        "finalAmount",
        "paidAmount",
        "needReceipt",
        "receiptNumber",
        "receiptIssued",
        "receiptIssuedAt",
        "receiptIssuedBy",
        "accountingState",
        "accountingDate",
        "accountingBy",
        "accountingNotes",
        "paymentState",
        "paymentMethod",
        "paymentDate",
        "paymentNotes",
        "notes",
        "user_updated",
    ];
    let sort_columns = vec![
        "id",
        "registrationId",
        "activityId",
        "state",
        "items",
        "contact",
        "totalAmount",
        "discountAmount",
        "finalAmount",
        "paidAmount",
        "needReceipt",
        "receiptNumber",
        "receiptIssued",
        "receiptIssuedAt",
        "receiptIssuedBy",
        "accountingState",
        "accountingDate",
        "accountingBy",
        "accountingNotes",
        "paymentState",
        "paymentMethod",
        "paymentDate",
        "paymentNotes",
        "notes",
        "createdAt",
        "updatedAt",
        "date_created",
        "date_updated",
    ];
    let filter_columns = vec!["registrationId", "activityId", "state", "paymentState", "accountingState"];
    let lookup_columns = vec!["registrationId", "activityId"];
    proof {
        assert(names(columns@) =~= schema().columns);
        assert(names(sort_columns@) =~= schema().sort_columns);
        assert(names(filter_columns@) =~= schema().filter_columns);
        assert(names(lookup_columns@) =~= schema().lookup_columns);
    }
    EntityDescriptor {
        table: "participationRecordDB",
        label: "參與記錄",
        noun: "參與記錄",
        select_head: SELECT_PARTICIPATION_RECORDS,
        key_column: "id",
        natural_key: None,
        generated_key: false,
        default_sort: "createdAt",
        columns,
        sort_columns,
        filter_columns,
        lookup_columns,
    }
}

impl ParticipationRecordQuery {
    /// The listing asked for: one exact-match filter for each of
    /// `registrationId`, `activityId`, `state`, `paymentState` and
    /// `accountingState` that is present.
    pub open spec fn listing(&self) -> Listing {
        Listing {
            filters: equals_if_int("registrationId"@, self.registration_id)
                + equals_if_int("activityId"@, self.activity_id)
                + equals_if_text("state"@, self.state)
                + equals_if_text("paymentState"@, self.payment_state)
                + equals_if_text("accountingState"@, self.accounting_state),
            sort: text_of(self.sort),
            limit: self.limit,
            offset: self.offset,
        }
    }

    /// The listing asked for.
    pub fn list_query(&self) -> (query: ListQuery)
        ensures
            query@ == self.listing(),
    {
        let mut filters = Vec::new();
        filter_int(&mut filters, "registrationId", &self.registration_id);
        filter_int(&mut filters, "activityId", &self.activity_id);
        filter_text(&mut filters, "state", &self.state);
        filter_text(&mut filters, "paymentState", &self.payment_state);
        filter_text(&mut filters, "accountingState", &self.accounting_state);
        assert(crate::query::conditions(filters@) =~= self.listing().filters);
        ListQuery { filters, sort: self.sort.clone(), limit: self.limit, offset: self.offset }
    }
}

impl CreateParticipationRecordRequest {
    /// The fields of the row to create, in column order; an absent field is
    /// stored as NULL.
    pub open spec fn fields(&self) -> Seq<Assigned> {
        set_to("registrationId"@, opt_int(self.registration_id))
            + set_to("activityId"@, opt_int(self.activity_id))
            + set_to("state"@, opt_text(self.state))
            + set_to("items"@, opt_json(self.items))
            + set_to("contact"@, opt_json(self.contact))
            + set_to("totalAmount"@, opt_int(self.total_amount))
            + set_to("discountAmount"@, opt_int(self.discount_amount))
            + set_to("finalAmount"@, opt_int(self.final_amount))
            + set_to("paidAmount"@, opt_int(self.paid_amount))
            + set_to("needReceipt"@, opt_text(self.need_receipt))
            + set_to("receiptNumber"@, opt_text(self.receipt_number))
            + set_to("receiptIssued"@, opt_text(self.receipt_issued))
            + set_to("receiptIssuedAt"@, opt_text(self.receipt_issued_at))
            + set_to("receiptIssuedBy"@, opt_text(self.receipt_issued_by))
            + set_to("accountingState"@, opt_text(self.accounting_state))
            + set_to("accountingDate"@, opt_text(self.accounting_date))
            + set_to("accountingBy"@, opt_text(self.accounting_by))
            + set_to("accountingNotes"@, opt_text(self.accounting_notes))
            + set_to("paymentState"@, opt_text(self.payment_state))
            + set_to("paymentMethod"@, opt_text(self.payment_method))
            + set_to("paymentDate"@, opt_text(self.payment_date))
            + set_to("paymentNotes"@, opt_text(self.payment_notes))
            + set_to("notes"@, opt_text(self.notes))
    }

    /// The fields of the row to create.
    pub fn assignments(&self) -> (list: Vec<Assignment>)
        ensures
            assigned(list@) == self.fields(),
    {
        let mut list = Vec::new();
        assign(&mut list, "registrationId", SqlValue::from_opt_int(&self.registration_id));
        assign(&mut list, "activityId", SqlValue::from_opt_int(&self.activity_id));
        assign(&mut list, "state", SqlValue::from_opt_text(&self.state));
        assign(&mut list, "items", bind_json(&self.items));
        assign(&mut list, "contact", bind_json(&self.contact));
        assign(&mut list, "totalAmount", SqlValue::from_opt_int(&self.total_amount));
        assign(&mut list, "discountAmount", SqlValue::from_opt_int(&self.discount_amount));
        assign(&mut list, "finalAmount", SqlValue::from_opt_int(&self.final_amount));
        assign(&mut list, "paidAmount", SqlValue::from_opt_int(&self.paid_amount));
        assign(&mut list, "needReceipt", SqlValue::from_opt_text(&self.need_receipt));
        assign(&mut list, "receiptNumber", SqlValue::from_opt_text(&self.receipt_number));
        assign(&mut list, "receiptIssued", SqlValue::from_opt_text(&self.receipt_issued));
        assign(&mut list, "receiptIssuedAt", SqlValue::from_opt_text(&self.receipt_issued_at));
        assign(&mut list, "receiptIssuedBy", SqlValue::from_opt_text(&self.receipt_issued_by));
        assign(&mut list, "accountingState", SqlValue::from_opt_text(&self.accounting_state));
        assign(&mut list, "accountingDate", SqlValue::from_opt_text(&self.accounting_date));
        assign(&mut list, "accountingBy", SqlValue::from_opt_text(&self.accounting_by));
        assign(&mut list, "accountingNotes", SqlValue::from_opt_text(&self.accounting_notes));
        assign(&mut list, "paymentState", SqlValue::from_opt_text(&self.payment_state));
        assign(&mut list, "paymentMethod", SqlValue::from_opt_text(&self.payment_method));
        assign(&mut list, "paymentDate", SqlValue::from_opt_text(&self.payment_date));
        assign(&mut list, "paymentNotes", SqlValue::from_opt_text(&self.payment_notes));
        assign(&mut list, "notes", SqlValue::from_opt_text(&self.notes));
        assert(assigned(list@) =~= self.fields());
        list
    }
}

impl UpdateParticipationRecordRequest {
    /// The fields to change: those that are present, in column order.
    pub open spec fn fields(&self) -> Seq<Assigned> {
        set_if_int("registrationId"@, self.registration_id)
            + set_if_int("activityId"@, self.activity_id)
            + set_if_text("state"@, self.state)
            + set_if_json("items"@, self.items)
            + set_if_json("contact"@, self.contact)
            + set_if_int("totalAmount"@, self.total_amount)
            + set_if_int("discountAmount"@, self.discount_amount)
            + set_if_int("finalAmount"@, self.final_amount)
            + set_if_int("paidAmount"@, self.paid_amount)
            + set_if_text("needReceipt"@, self.need_receipt)
            + set_if_text("receiptNumber"@, self.receipt_number)
            + set_if_text("receiptIssued"@, self.receipt_issued)
            + set_if_text("receiptIssuedAt"@, self.receipt_issued_at)
            + set_if_text("receiptIssuedBy"@, self.receipt_issued_by)
            + set_if_text("accountingState"@, self.accounting_state)
            + set_if_text("accountingDate"@, self.accounting_date)
            + set_if_text("accountingBy"@, self.accounting_by)
            + set_if_text("accountingNotes"@, self.accounting_notes)
            + set_if_text("paymentState"@, self.payment_state)
            + set_if_text("paymentMethod"@, self.payment_method)
            + set_if_text("paymentDate"@, self.payment_date)
            + set_if_text("paymentNotes"@, self.payment_notes)
            + set_if_text("notes"@, self.notes)
            + set_if_text("user_updated"@, self.user_updated)
    }

    /// The fields to change.
    pub fn patch(&self) -> (list: Vec<Assignment>)
        ensures
            assigned(list@) == self.fields(),
    {
        let mut list = Vec::new();
        assign_int(&mut list, "registrationId", &self.registration_id);
        assign_int(&mut list, "activityId", &self.activity_id);
        assign_text(&mut list, "state", &self.state);
        assign_json(&mut list, "items", &self.items);
        assign_json(&mut list, "contact", &self.contact);
        assign_int(&mut list, "totalAmount", &self.total_amount);
        assign_int(&mut list, "discountAmount", &self.discount_amount);
        assign_int(&mut list, "finalAmount", &self.final_amount);
        assign_int(&mut list, "paidAmount", &self.paid_amount);
        assign_text(&mut list, "needReceipt", &self.need_receipt);
        assign_text(&mut list, "receiptNumber", &self.receipt_number);
        assign_text(&mut list, "receiptIssued", &self.receipt_issued);
        assign_text(&mut list, "receiptIssuedAt", &self.receipt_issued_at);
        assign_text(&mut list, "receiptIssuedBy", &self.receipt_issued_by);
        assign_text(&mut list, "accountingState", &self.accounting_state);
        assign_text(&mut list, "accountingDate", &self.accounting_date);
        assign_text(&mut list, "accountingBy", &self.accounting_by);
        assign_text(&mut list, "accountingNotes", &self.accounting_notes);
        assign_text(&mut list, "paymentState", &self.payment_state);
        assign_text(&mut list, "paymentMethod", &self.payment_method);
        assign_text(&mut list, "paymentDate", &self.payment_date);
        assign_text(&mut list, "paymentNotes", &self.payment_notes);
        assign_text(&mut list, "notes", &self.notes);
        assign_text(&mut list, "user_updated", &self.user_updated);
        assert(assigned(list@) =~= self.fields());
        list
    }
}

/// Begins the listing of participation records.
pub fn get_all_participation_records(params: &ParticipationRecordQuery) -> (turn: Turn<ParticipationRecord>)
    ensures
        list_begins(schema(), params.listing(), turn),
{
    begin_list(&descriptor(), &params.list_query())
}

/// Begins the lookup of the first participation record of the registration
/// `registration_id`. Which one is first among several is left to the store.
pub fn get_participation_record_by_registration_id(registration_id: i64) -> (turn: Turn<ParticipationRecord>)
    ensures
        get_begins(schema(), "registrationId"@, Param::Int(registration_id as int), turn),
{
    begin_get(&descriptor(), "registrationId", SqlValue::Int(registration_id))
}

/// Begins the lookup of all participation records of the activity
/// `activity_id`.
pub fn get_participation_record_by_activity_id(activity_id: i64) -> (turn: Turn<ParticipationRecord>)
    ensures
        get_all_begins(schema(), "activityId"@, Param::Int(activity_id as int), turn),
{
    begin_get_all(&descriptor(), "activityId", SqlValue::Int(activity_id))
}

/// Begins the lookup of the participation record with identity `id`.
pub fn get_participation_record_by_id(id: i64) -> (turn: Turn<ParticipationRecord>)
    ensures
        get_begins(schema(), "id"@, Param::Int(id as int), turn),
{
    begin_get(&descriptor(), "id", SqlValue::Int(id))
}

/// Begins the create of a participation record, stamped with the current time.
pub fn create_participation_record(payload: &CreateParticipationRecordRequest) -> (turn: Turn<ParticipationRecord>)
    ensures
        exists|now: Seq<char>, fresh_key: Seq<char>|
            {
                &&& is_utc_stamp(now)
                &&& #[trigger] create_begins(schema(), payload.fields(), now, fresh_key, turn)
            },
{
    begin_create_now(&descriptor(), &payload.assignments())
}

/// Begins the update of the participation record with identity `id`, stamped with the
/// current time.
pub fn update_participation_record(id: i64, payload: &UpdateParticipationRecordRequest) -> (turn: Turn<ParticipationRecord>)
    ensures
        exists|now: Seq<char>|
            is_utc_stamp(now) && #[trigger] update_begins(
                schema(),
                Param::Int(id as int),
                payload.fields(),
                now,
                turn,
            ),
{
    begin_update_now(&descriptor(), SqlValue::Int(id), &payload.patch())
}

/// Begins the delete of the participation record with identity `id`.
pub fn delete_participation_record(id: i64) -> (turn: Turn<ParticipationRecord>)
    ensures
        delete_begins(schema(), Param::Int(id as int), turn),
{
    begin_delete(&descriptor(), SqlValue::Int(id))
}

/// The filters of a typed query are all on the allow-list: a listing of
/// participation records is rejected only for its sort or its page bounds.
pub proof fn filters_are_allowed(params: ParticipationRecordQuery)
    ensures
        filterable(schema(), params.listing().filters),
{
    let allowed = schema().filter_columns;
    assert(allowed[0] == "registrationId"@);
    assert(allowed[1] == "activityId"@);
    assert(allowed[2] == "state"@);
    assert(allowed[3] == "paymentState"@);
    assert(allowed[4] == "accountingState"@);
}

/// The fields of a typed create request are all writable: the insert is
/// always planned.
pub proof fn create_is_planned(payload: CreateParticipationRecordRequest, now: Seq<char>, fresh_key: Seq<char>)
    ensures
        writable(schema(), payload.fields()),
        insert_plan(schema(), fresh_key, payload.fields(), now) is Ok,
{
    let writable_columns = schema().columns;
    assert(writable_columns[0] == "registrationId"@);
    assert(writable_columns[1] == "activityId"@);
    assert(writable_columns[2] == "state"@);
    assert(writable_columns[3] == "items"@);
    assert(writable_columns[4] == "contact"@);
    assert(writable_columns[5] == "totalAmount"@);
    assert(writable_columns[6] == "discountAmount"@);
    assert(writable_columns[7] == "finalAmount"@);
    assert(writable_columns[8] == "paidAmount"@);
    assert(writable_columns[9] == "needReceipt"@);
    assert(writable_columns[10] == "receiptNumber"@);
    assert(writable_columns[11] == "receiptIssued"@);
    assert(writable_columns[12] == "receiptIssuedAt"@);
    assert(writable_columns[13] == "receiptIssuedBy"@);
    assert(writable_columns[14] == "accountingState"@);
    assert(writable_columns[15] == "accountingDate"@);
    assert(writable_columns[16] == "accountingBy"@);
    assert(writable_columns[17] == "accountingNotes"@);
    assert(writable_columns[18] == "paymentState"@);
    assert(writable_columns[19] == "paymentMethod"@);
    assert(writable_columns[20] == "paymentDate"@);
    assert(writable_columns[21] == "paymentNotes"@);
    assert(writable_columns[22] == "notes"@);
}

/// The fields of a typed update request are all writable: the update is
/// rejected only when the request names no field.
pub proof fn update_is_planned_unless_empty(payload: UpdateParticipationRecordRequest, id: Param, now: Seq<char>)
    ensures
        writable(schema(), payload.fields()),
        update_plan(schema(), id, payload.fields(), now) is Ok <==> payload.fields().len() > 0,
{
    let writable_columns = schema().columns;
    assert(writable_columns[0] == "registrationId"@);
    assert(writable_columns[1] == "activityId"@);
    assert(writable_columns[2] == "state"@);
    assert(writable_columns[3] == "items"@);
    assert(writable_columns[4] == "contact"@);
    assert(writable_columns[5] == "totalAmount"@);
    assert(writable_columns[6] == "discountAmount"@);
    assert(writable_columns[7] == "finalAmount"@);
    assert(writable_columns[8] == "paidAmount"@);
    assert(writable_columns[9] == "needReceipt"@);
    assert(writable_columns[10] == "receiptNumber"@);
    assert(writable_columns[11] == "receiptIssued"@);
    assert(writable_columns[12] == "receiptIssuedAt"@);
    assert(writable_columns[13] == "receiptIssuedBy"@);
    assert(writable_columns[14] == "accountingState"@);
    assert(writable_columns[15] == "accountingDate"@);
    assert(writable_columns[16] == "accountingBy"@);
    assert(writable_columns[17] == "accountingNotes"@);
    assert(writable_columns[18] == "paymentState"@);
    assert(writable_columns[19] == "paymentMethod"@);
    assert(writable_columns[20] == "paymentDate"@);
    assert(writable_columns[21] == "paymentNotes"@);
    assert(writable_columns[22] == "notes"@);
    assert(writable_columns[23] == "user_updated"@);
}

} // verus!
