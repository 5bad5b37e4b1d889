//! A transparent process proxy: it resolves which real executable to stand in
//! for, never itself, and runs it once per attempt inside a fresh scratch
//! directory, retrying a failing run within a small budget.

pub mod config;
pub mod error;
pub mod launch;
pub mod path_ops;
pub mod resolve;
pub mod retry;
