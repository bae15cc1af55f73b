//! Task-queue bookkeeping for the scenario-queue manager: the data model of
//! tasks, runs, scenarios and maps, the lifecycle decisions taken when an
//! executor claims, finishes, fails or abandons a task, the reading of
//! uploaded scenario archives and the creation of their scenarios, and the
//! request validation, path handling and blob helpers that the HTTP layer
//! relies on.
//!
//! Every function here computes on plain values; the database, the HTTP
//! server and the clock live in the application crate around it.

pub mod db;
pub mod entity;
pub mod http;
pub mod json;
pub mod text;
