//! Operating modes of the tracker and the events it reports.

pub mod system_event;
pub mod system_state;
