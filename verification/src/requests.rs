//! The calls of the server's API, one type for each.

pub mod channels;
pub mod charts;
pub mod i;
pub mod notes;
pub mod users;
