//! Geolocation lookups against a MaxMind database for a Lua host.
//!
//! The host hands over an address and the code of a record type; the crate
//! answers with a tree of plain values ([`value::GenericValue`]) that the
//! host pushes to its Lua state, or with an error to report.
//!
//! - [`api`]: what the host calls, `query` and `country`.
//! - [`database`]: the state that an execution context keeps of its
//!   database, and how the database file is found and opened.
//! - [`registry`]: the kinds of record, with their codes and names.
//! - [`records`], [`model`], [`names`]: what a database holds for an address.
//! - [`serialize`], [`value`]: the values that stand for records.
//! - [`engine`]: the calls into the `maxminddb` crate, which reads the file.
//! - [`laws`]: what holds of all of these together.
//!
//! The crate touches no file and no Lua state: the host maps the file and
//! pushes the values.

pub mod address;
pub mod api;
pub mod database;
pub mod engine;
pub mod error;
pub mod laws;
pub mod model;
pub mod names;
pub mod records;
pub mod registry;
pub mod serialize;
pub mod value;

pub use crate::error::DBError;
pub use crate::serialize::PushToLua;
