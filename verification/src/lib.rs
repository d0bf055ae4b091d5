//! Decision logic of a benchmark bot for pull requests.
//!
//! A forge delivers issue-comment events. When an allow-listed maintainer asks
//! for it in a comment, the bot builds and benchmarks the repository's default
//! branch and the pull request, and posts both results back as one comment.
//!
//! This crate holds every decision of that pipeline and performs none of its
//! effects. Each external process is described by an [`command::Invocation`];
//! the caller runs it and hands back an [`command::Outcome`].
//!
//! - [`filter`] decides whether an event asks for a benchmark, and
//!   [`handler`] answers the event and makes its job.
//! - [`queue`] lets one job run at a time.
//! - [`orchestrator`] leads one job through its stages; [`sync`], [`bench`]
//!   and [`reporter`] say what each stage runs, [`report`] what it writes.
//! - [`runs`] proves what holds of every run of a job.

pub mod bench;
pub mod command;
pub mod config;
pub mod event;
pub mod filter;
pub mod handler;
pub mod job;
pub mod orchestrator;
pub mod queue;
pub mod report;
pub mod reporter;
pub mod runs;
pub mod sync;
pub mod text;
