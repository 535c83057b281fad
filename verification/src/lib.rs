//! A verified core for a TTY login manager: PAM-mediated authentication as an
//! explicit state machine, an irreversible fail-closed privilege drop, a
//! display-server readiness handshake with bounded timeout, environment
//! assembly, and the login form's state logic. The thin unverified glue that
//! performs the actual system calls drives these machines and obeys their
//! contracts.

pub mod auth;
pub mod cli;
pub mod config;
pub mod env_container;
pub mod post_login;
pub mod session;
pub mod strutil;
pub mod ui;
pub mod views;
pub mod x;
