//! Safe dynamic query construction for a small expense/income tracker.
//!
//! The core of the library is a pair of builders that turn sparse filter
//! criteria and partial-update requests into parameterized query templates
//! plus ordered lists of bound values. User data never enters the template
//! text; it only ever travels as a bound parameter. Field names are
//! whitelisted against a static registry before any query text is produced.

pub mod values;
pub mod errors;
pub mod template;
pub mod registry;
pub mod like;
pub mod models;
pub mod predicate;
pub mod patch;
pub mod rows;
pub mod commands;
