//! A self-healing availability watchdog, as a set of verified state machines.
//!
//! The library decides; a driver around it probes, waits, runs remediation
//! commands and sends mail, and reports back what happened.

pub mod actions;
pub mod chronicle;
pub mod config;
pub mod escalation;
pub mod journal;
pub mod messages;
pub mod monitor;
pub mod protocol;
pub mod status;
pub mod text;

pub use crate::actions::run_spefice_action;
pub use crate::messages::build_mail_recipients;
pub use crate::status::ServerStatus;
