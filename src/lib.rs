//! Decision engine of a fleet monitor: it correlates instance descriptions with
//! status records, renders the fleet as text, detects change against the last
//! stored rendering, evaluates queue health, and decides what to notify.

pub mod fleet;
pub mod text;
pub mod render;
pub mod queue;
pub mod change;
pub mod notify;
