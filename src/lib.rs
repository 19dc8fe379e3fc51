//! Startup decisions of the RepoHub desktop shell.
//!
//! The shell itself (window system, event loop) is driven from outside; this
//! library decides what it does at each step: which platforms lose the native
//! titlebar, how the one-time setup hook proceeds through its best-effort
//! lookups, and how the process ends when the event loop returns.
pub mod platform;
pub mod lifecycle;
pub mod setup;
