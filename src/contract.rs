//! The handlers behind the entry points: `exec` changes the counter, `query`
//! reads it.
pub mod exec;
pub mod query;
