//! Export of every document that matches a query from a search cluster, page by
//! page, through the cluster's scroll cursor.
//!
//! The library holds the decisions of an export: how many rounds a result
//! needs, what each reply of the cluster means, what is written where, and when
//! the one compression pass is due. Requests, files and the compression itself
//! are the caller's: the library names the next action, the caller performs it
//! and reports what happened.

pub mod rounds;
pub mod gate;
pub mod error;
pub mod control;
pub mod laws;
pub mod json;
pub mod decimal;
pub mod page;
pub mod job;
pub mod reply;
pub mod export;

pub use crate::export::dump;
pub use crate::job::EsDump;
