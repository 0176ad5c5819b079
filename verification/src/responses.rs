//! What the server answers, one type for each shape.

pub mod channels;
pub mod charts;
pub mod notes;
pub mod notifications;
pub mod users;
