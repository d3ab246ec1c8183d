//! Decision logic of a GPU memory stress harness.
//!
//! Two worker loops keep a device busy: one allocates and frees a fixed-size
//! device buffer, the other allocates a device buffer, copies it to a host
//! buffer and frees it. The driver calls themselves are made by the program
//! around this library; here each loop is a state machine that says which
//! driver operation comes next and how the outcome of that operation moves the
//! loop on, together with the startup check, the iteration counter, the log
//! lines and a byte pattern for checking copies.

pub mod counter;
pub mod message;
pub mod pattern;
pub mod startup;
pub mod worker;
