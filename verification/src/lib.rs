//! A verified core for a small user-profile CRUD service backed by a
//! YCQL-style table.
//!
//! The library holds everything that can be stated and proved: the
//! 128-bit identifier model (a random partition key and a time-ordered
//! clustering key), the four parameterized queries over the single
//! `user_profile` table, the JSON response envelopes with their exact
//! status strings, the per-operation request handling decisions, and a
//! model of the table against which the query semantics are proved.
//! The HTTP server and the database session live outside the library
//! and exchange plain values with it.

pub mod crud_controller;
pub mod default_strings;
pub mod generic_json_error_response;
pub mod generic_json_success_response;
pub mod identifiers;
pub mod json_error_handling;
pub mod table_model;
pub mod ycql_db_schema_and_queries;
