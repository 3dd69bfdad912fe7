//! Verified core of the rushmap desktop database layer: which SQL statements
//! each operation runs, with which parameters, in which order, and what the
//! operation makes of the rows and row counts that come back.
pub mod models;
pub mod sql;
pub mod batch;
pub mod hostname;
pub mod record;
pub mod history;
pub mod map;
pub mod user;
pub mod setup;
