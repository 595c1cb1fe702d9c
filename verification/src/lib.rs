//! A terminal kanban board's core: three columns of tickets, a selectable
//! list per column, and a modal input state machine that turns key events
//! into board mutations. Terminal rendering and raw event capture live
//! outside the library; the core only consumes abstract key events and
//! exposes a read-only snapshot of its state.

pub mod app;
pub mod list;
pub mod ticket;
