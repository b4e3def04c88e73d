//! From the end of an operation to the HTTP status and the envelope.

use vstd::prelude::*;
use vstd::std_specs::convert::FromSpec;
use vstd::string::StringExecFns;
use crate::api_response::{ApiResponse, Meta};
use crate::descriptor::{EntityDescriptor, Schema};
use crate::error::{message_of, status_of, RepoError};
use crate::repository::Outcome;

verus! {

/// What an envelope carries as data: one item, or a list of items.
#[derive(Debug)]
pub enum Payload<T> {
    One(T),
    Many(Vec<T>),
}

/// An HTTP status and the envelope sent with it.
#[derive(Debug)]
pub struct Response<T> {
    pub status: u16,
    pub body: ApiResponse<Payload<T>>,
}

/// Status of every success.
pub const STATUS_OK: u16 = 200;

/// The rows of a store, each turned into what the caller is shown.
pub open spec fn shown<R, T: From<R>>(rows: Seq<R>) -> Seq<T> {
    rows.map_values(|row: R| T::from_spec(row))
}

/// Message of a successful create.
pub open spec fn created_message(schema: Schema) -> Seq<char> {
    "成功創建"@ + schema.label
}

/// Message of a successful update.
pub open spec fn updated_message(schema: Schema) -> Seq<char> {
    "成功更新"@ + schema.label
}

/// Message of a successful delete.
pub open spec fn deleted_message(schema: Schema) -> Seq<char> {
    "成功刪除"@ + schema.label
}

/// The status that reports how an operation ended.
pub open spec fn status_for<R>(result: Result<Outcome<R>, RepoError>) -> int {
    match result {
        Ok(_) => STATUS_OK as int,
        Err(e) => status_of(e@),
    }
}

/// Whether `body` carries exactly this message.
pub open spec fn says<T>(body: ApiResponse<T>, message: Seq<char>) -> bool {
    body.message matches Some(m) && m@ == message
}

/// Whether `body` is the envelope for the way an operation ended.
///
/// A failure carries its message and nothing else. A read carries its data
/// only, a page of a listing also the count and the page bounds used, a create
/// or an update also a message, and a delete a message and no data.
pub open spec fn envelops<R, T: From<R>>(
    schema: Schema,
    result: Result<Outcome<R>, RepoError>,
    body: ApiResponse<Payload<T>>,
) -> bool {
    match result {
        Err(e) => {
            &&& body.is_failure()
            &&& says(body, message_of(e@))
            &&& body.errors is None
        },
        Ok(outcome) => {
            &&& body.success
            &&& body.errors is None
            &&& match outcome {
                Outcome::Page { rows, total, limit, offset } => {
                    &&& body.data matches Some(Payload::Many(items)) && items@ == shown::<R, T>(
                        rows@,
                    )
                    &&& body.message is None
                    &&& body.meta == Some(Meta { total, limit: Some(limit), offset: Some(offset) })
                },
                Outcome::Items(rows) => {
                    &&& body.data matches Some(Payload::Many(items)) && items@ == shown::<R, T>(
                        rows@,
                    )
                    &&& body.message is None
                    &&& body.meta is None
                },
                Outcome::Item(row) => {
                    &&& body.data == Some(Payload::One(T::from_spec(row)))
                    &&& body.message is None
                    &&& body.meta is None
                },
                Outcome::Created(row) => {
                    &&& body.data == Some(Payload::One(T::from_spec(row)))
                    &&& says(body, created_message(schema))
                    &&& body.meta is None
                },
                Outcome::Updated(row) => {
                    &&& body.data == Some(Payload::One(T::from_spec(row)))
                    &&& says(body, updated_message(schema))
                    &&& body.meta is None
                },
                Outcome::Deleted => {
                    &&& body.data is None
                    &&& says(body, deleted_message(schema))
                    &&& body.meta is None
                },
            }
        },
    }
}

/// Turns each row into what the caller is shown, in order.
pub fn show_rows<R, T: From<R>>(rows: Vec<R>) -> (items: Vec<T>)
    ensures
        T::obeys_from_spec() ==> items@ == shown::<R, T>(rows@),
{
    let mut items: Vec<T> = Vec::new();
    let ghost all = rows@;
    for row in it: rows
        invariant
            it.seq() == all,
            T::obeys_from_spec() ==> items@ =~= shown::<R, T>(all.take(it.index() as int)),
    {
        items.push(T::from(row));
    }
    assert(all.take(all.len() as int) =~= all);
    items
}

fn labelled(prefix: &str, desc: &EntityDescriptor) -> (message: String)
    ensures
        message@ == prefix@ + desc@.label,
{
    let mut message = String::from_str(prefix);
    message.append(desc.label);
    message
}

/// The status and the envelope that report how an operation ended.
pub fn respond<R, T: From<R>>(desc: &EntityDescriptor, result: Result<Outcome<R>, RepoError>) -> (response:
    Response<T>)
    ensures
        response.status == status_for(result),
        T::obeys_from_spec() ==> envelops(desc@, result, response.body),
{
    match result {
        Err(e) => Response { status: e.status(), body: ApiResponse::error(e.message()) },
        Ok(outcome) => {
            let body = match outcome {
                Outcome::Page { rows, total, limit, offset } => ApiResponse::success_with_meta(
                    Payload::Many(show_rows(rows)),
                    Meta { total, limit: Some(limit), offset: Some(offset) },
                ),
                Outcome::Items(rows) => ApiResponse::success(Payload::Many(show_rows(rows))),
                Outcome::Item(row) => ApiResponse::success(Payload::One(T::from(row))),
                Outcome::Created(row) => ApiResponse::success_with_message(
                    Payload::One(T::from(row)),
                    labelled("成功創建", desc),
                ),
                Outcome::Updated(row) => ApiResponse::success_with_message(
                    Payload::One(T::from(row)),
                    labelled("成功更新", desc),
                ),
                Outcome::Deleted => ApiResponse {
                    success: true,
                    data: None,
                    message: Some(labelled("成功刪除", desc)),
                    meta: None,
                    errors: None,
                },
            };
            Response { status: STATUS_OK, body }
        },
    }
}

} // verus!
