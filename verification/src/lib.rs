//! Decision logic of the Vyoma microVM toolchain, verified with Verus.
//!
//! What only computes is an ordinary function with a contract. What needs files, programs or the
//! kernel in between is a workflow: a state machine that says what to do next and takes the outcome
//! as an event (see `flow`). The relation `transition` of a workflow states its every step, and the
//! laws about whole runs are proved from it.
pub mod agent;
pub mod build;
pub mod cgroups;
pub mod cow;
pub mod flow;
pub mod image;
pub mod init_script;
pub mod laws;
pub mod number;
pub mod path;
pub mod privdrop;
pub mod shell;
pub mod text;
