//! A small HTTP demonstration service: a fixed route table with constant
//! handlers, a generated API document describing that same table, and a
//! startup switch for response compression.

pub mod config;
pub mod routes;
pub mod reply;
pub mod records;
pub mod apidoc;
