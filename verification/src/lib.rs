//! Periodic synchronisation of local working trees with their Git remotes.
//!
//! A cycle takes the repositories of a list in turn. Each working tree is
//! validated, fetched, compared with the default branch of its remote and
//! pulled where it is behind; where the entry names a deploy target, the
//! tree is then built and what the build left is published in place of the
//! target's contents. A repository that fails is recorded, with the reason,
//! and the cycle goes on with the next.
//!
//! The library decides and the program that uses it acts. The library
//! starts no process and touches no file: a [`processor::Cycle`] names the
//! next step as a [`driver::Request`], the program carries it out and hands
//! the outcome back as a [`driver::Response`], and so on until the cycle is
//! over. What the cycle reports on the way comes back as
//! [`logger::Report`]s, which a [`logger::Logger`] dates.
//!
//! - [`config`]: the repository list and its lines.
//! - [`git`]: the Git commands of a working tree, and what their outcomes
//!   mean.
//! - [`publish`]: the build and the copy of its output.
//! - [`processor`]: the cycle.
//! - [`guarantees`], [`tree`]: what is proved of every cycle and of every
//!   copy.
//! - [`daemon`], [`settings`]: what the daemon does between cycles.
//! - [`service`]: the systemd unit.
//! - [`editor`]: the interactive editing of the list.
//! - [`logger`], [`error`], [`driver`], [`text`]: reports, failures,
//!   requests and text.

pub mod config;
pub mod daemon;
pub mod driver;
pub mod editor;
pub mod error;
pub mod git;
pub mod guarantees;
pub mod logger;
pub mod processor;
pub mod publish;
pub mod service;
pub mod settings;
pub mod text;
pub mod tree;
