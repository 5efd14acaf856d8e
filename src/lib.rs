// Supervision of a background worker process and classification of its health.
//
// health: the three-state classification of one poll.
// presentation: the icon and tooltip that stand for each state.
// monitor: the decisions of the polling loop, which fires only on transitions.
// supervisor: the worker handle, the shutdown flag and descendant selection.

pub mod health;
pub mod presentation;
pub mod monitor;
pub mod supervisor;
