//! A schema compiler for a small persistence layer: entity descriptors,
//! SQL statement templates with positional parameters, relation accessors,
//! validated constructors, ownership and visibility guards, and a route table.

pub mod text;
pub mod schema;
pub mod row;
pub mod sql;
pub mod relations;
pub mod models;
pub mod auth;
pub mod guard;
pub mod routes;
pub mod registry;
pub mod account;
