//! Verified core of a CRUD data-access API over a shared relational store.
//!
//! The library decides; its caller talks to the store and to HTTP.
//!
//! - [`query`] plans listings: filters, sort and page bounds become a fetch
//!   statement and a matching count statement, every value bound as a
//!   parameter and every column taken from an allow-list.
//! - [`patch`] plans writes: partial updates that set only the fields provided
//!   and refresh the update stamp, and inserts.
//! - [`codec`] stores JSON-valued fields as text and reads them back leniently.
//! - [`repository`] holds the decisions of each operation as a conversation
//!   with the store: what to run next, and how the operation ended.
//! - [`respond`] and [`api_response`] turn that end into an HTTP status and the
//!   uniform envelope.
//! - [`descriptor`] says what distinguishes one entity from another, and
//!   [`activity`], [`registration`], [`monthly_donate`],
//!   [`participation_record`] and [`my_data`] instantiate the repository for
//!   the five entities.
//! - [`statement`], [`value`] and [`error`] hold what the others share.

pub mod activity;
pub mod api_response;
pub mod codec;
pub mod descriptor;
pub mod error;
pub mod monthly_donate;
pub mod my_data;
pub mod participation_record;
pub mod patch;
pub mod query;
pub mod registration;
pub mod repository;
pub mod respond;
pub mod stamp;
pub mod statement;
pub mod value;
