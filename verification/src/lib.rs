//! Verified core of a Git commit-message rewriter.
//!
//! The library rewrites the message of a single commit and propagates the
//! change across the chosen branches, while streaming log, progress and
//! preview events to an observer.  History is read through `git2`; the
//! destructive rewrite itself is driven by an external `git filter-branch`
//! subprocess whose arguments this library constructs and whose outcome it
//! interprets.  Backup references left under `refs/original/` are the basis
//! for rollback.

pub mod driver;
pub mod gitio;
pub mod messages;
pub mod models;
pub mod refs;
pub mod repo;
pub mod state;
pub mod shell;
pub mod tasks;
pub mod text;
pub mod view;
