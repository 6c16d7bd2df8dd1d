//! The data the service keeps and the state it is configured with.

pub mod appstate;
pub mod diary_record;
