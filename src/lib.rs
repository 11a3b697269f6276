//! An interactive checklist panel.
//!
//! - `checklist`: the list and its entries.
//! - `draw`: text fragments for the terminal (styles, cursor moves, boxes).
//! - `panel`: the state machine that applies events to a list and says, as a
//!   sequence of effects, what must be written to the terminal and done around it.
//! - `keys`: the fixed key table of the reader; a delete is confirmed by the
//!   reader itself before the panel sees the commit.
//! - `command`: the command line.
//! - `laws`: properties of the panel that hold over every run.
//!
//! Terminal I/O, timers, threads and storage are left to the caller, which
//! carries out the effects and feeds events back.

pub mod checklist;
pub mod command;
pub mod draw;
pub mod keys;
pub mod laws;
pub mod panel;
pub mod settings;
pub mod text;
