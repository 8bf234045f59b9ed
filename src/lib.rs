//! A task list: tasks with a completion flag, and a volatile store that
//! creates, lists and toggles them under explicit invariants.

mod generate;
pub mod task;
pub mod store;
pub mod laws;
