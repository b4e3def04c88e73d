//! The uniform envelope placed around every API result.

use vstd::prelude::*;

verus! {

/// Pagination metadata carried by list responses.
#[derive(Debug, PartialEq, Eq)]
pub struct Meta {
    pub total: i64,
    pub limit: Option<i64>,
    pub offset: Option<i64>,
}

/// The single response shape every caller depends on.
#[derive(Debug)]
pub struct ApiResponse<T> {
    pub success: bool,
    pub data: Option<T>,
    pub message: Option<String>,
    pub meta: Option<Meta>,
    pub errors: Option<Vec<String>>,
}

impl<T> ApiResponse<T> {
    /// A failed response carries no data and no pagination metadata.
    pub open spec fn is_failure(&self) -> bool {
        &&& !self.success
        &&& self.data is None
        &&& self.message is Some
        &&& self.meta is None
    }

    /// Bare success: the payload and nothing else.
    pub fn success(data: T) -> (r: Self)
        ensures
            r.success,
            r.data == Some(data),
            r.message is None,
            r.meta is None,
            r.errors is None,
    {
        Self { success: true, data: Some(data), message: None, meta: None, errors: None }
    }

    /// List success: the payload together with the count, limit and offset used.
    pub fn success_with_meta(data: T, meta: Meta) -> (r: Self)
        ensures
            r.success,
            r.data == Some(data),
            r.message is None,
            r.meta == Some(meta),
            r.errors is None,
    {
        Self { success: true, data: Some(data), message: None, meta: Some(meta), errors: None }
    }

    /// Mutation success: the payload together with a human-readable message.
    pub fn success_with_message(data: T, message: String) -> (r: Self)
        ensures
            r.success,
            r.data == Some(data),
            r.message == Some(message),
            r.meta is None,
            r.errors is None,
    {
        Self { success: true, data: Some(data), message: Some(message), meta: None, errors: None }
    }

    /// Failure with a message only.
    pub fn error(message: String) -> (r: Self)
        ensures
            r.is_failure(),
            r.message == Some(message),
            r.errors is None,
    {
        Self { success: false, data: None, message: Some(message), meta: None, errors: None }
    }

    /// Failure with a message and a list of detail strings.
    pub fn error_with_details(message: String, errors: Vec<String>) -> (r: Self)
        ensures
            r.is_failure(),
            r.message == Some(message),
            r.errors == Some(errors),
    {
        Self { success: false, data: None, message: Some(message), meta: None, errors: Some(errors) }
    }
}

} // verus!
