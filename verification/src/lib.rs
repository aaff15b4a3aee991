//! Decisions of a daemon that runs Podman healthchecks on hosts without systemd timers.
//!
//! Each part takes what happened as a plain value and says what is to be done next.
//! The program around the library runs the commands, the timers and the event stream,
//! and reads and writes the JSON.

pub mod events;
pub mod monitor;
pub mod paths;
pub mod podman;
pub mod startup;
pub mod status;
pub mod table;
pub mod tasks;
pub mod text;
pub mod timing;
