//! A terminal client for GitHub Projects (v2): the verified core.
//!
//! The crate holds the screen state machine and its key bindings, the
//! configuration model, token checks, the GraphQL client's request and
//! response logic, and the text that each screen shows. Terminal drawing,
//! file access and the network exchange itself are left to the caller.
pub mod app;
pub mod config;
pub mod error;
pub mod github;
pub mod text;
pub mod ui;
