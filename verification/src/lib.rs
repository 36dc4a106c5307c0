//! An embedded object-relational mapping core.
//!
//! A native structure is described by a [`Schema`](types::Schema): an ordered
//! list of typed fields together with total conversions between the structure
//! and an ordered list of tagged values ([`DbData`](db::DbData)).  A small
//! condition algebra ([`Cond`](db::Cond)) builds filters for queries and
//! deletes.  The `sqlite` module turns schemas and conditions into statement
//! text with positional bind parameters, and models the lifecycle of a
//! prepared statement driven row sequence.  The native engine calls themselves
//! (open, prepare, bind, step, finalize, close) are left to an unverified
//! driver that feeds plain values into, and takes plain values out of, the
//! functions here.

pub mod db;
pub mod types;
pub mod schemas;
pub mod sqlite;
