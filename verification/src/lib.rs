//! Unattended daily check-in for a site that gates the action behind a login
//! and a picture puzzle: the decisions of the whole procedure, without any of
//! its input and output.
//!
//! A driver performs the network exchanges and hands their results in; every
//! choice between them (when to log in, which answer to pick, when to retry,
//! when to fire) is made here and carries a contract.

pub mod error;
pub mod picparser;
pub mod schedule;
pub mod text;
pub mod retry;
pub mod command;
pub mod config;
pub mod session;
pub mod page;
pub mod attempt;
pub mod bot;
pub mod email_bot;
