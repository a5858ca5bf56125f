//! A minimal create/read service for user records: request text is parsed,
//! routed to one storage operation, and the outcome is encoded as a reply.
//!
//! No socket and no database is touched here: both live with the caller,
//! which performs the storage step this library asks for and hands the
//! outcome back. `table` keeps the same rows in memory.

pub mod model;
pub mod text;
pub mod number;
pub mod request;
pub mod reply;
pub mod json;
pub mod ids;
pub mod table;
pub mod service;
