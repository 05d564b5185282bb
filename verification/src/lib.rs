//! Startup orchestration for a desktop shell that talks to a backend server.
//!
//! At launch the shell either reuses a server that is already running (a
//! user-configured one, or one left on the local port) or spawns a local
//! server process and supervises it.  This crate holds the decisions of that
//! sequence as plain state machines: every function takes the outcome of the
//! last piece of outside work and answers with the next state and the work to
//! do next.  Waiting, timers, sockets and processes belong to the caller.
//!
//! * [`phase`]: the coarse startup phase and its broadcast to observers.
//! * [`readiness`]: the write-once cell that carries the final result.
//! * [`process`]: the slot that owns the spawned server process.
//! * [`health`]: classification of a health check and the failure message.
//! * [`text`]: decimal text of integers and parsing of port numbers.
//! * [`storage`]: location of the data file and the wait for it.
//! * [`connection`]: the choice between an existing server and a new one.
//! * [`startup`]: the end-to-end sequence and the view shown meanwhile.
//! * [`runs`]: what holds of every run of that sequence.
//! * [`display`]: the display backend preference on Linux.
//! * [`apps`]: whether an application that can open files is installed.
//! * [`winapps`]: the text work of finding a program on Windows.
//! * [`chars`]: texts as sequences of characters.

pub mod apps;
pub mod chars;
pub mod connection;
pub mod display;
pub mod health;
pub mod phase;
pub mod process;
pub mod readiness;
pub mod runs;
pub mod startup;
pub mod storage;
pub mod text;
pub mod winapps;
