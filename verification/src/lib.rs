//! Run a packaged application without installing it.
//!
//! An application is installed into a repository that is made for the one
//! run, with its runtime installed beside it or into a lasting repository;
//! it is launched and watched; and when it ends, or when anything fails on
//! the way, the repository is deleted again.
//!
//! This crate holds the decisions of that run, each with a machine-checked
//! contract. It touches neither the disk nor a process nor the network: a
//! driver carries out the actions that the state machines hand out, with the
//! packaging engine and the operating system, and reports back what came of
//! them.
//!
//! * [`pipeline`]: the run from a reference to a finished application.
//! * [`repo`]: the repository of a run and its one-time teardown.
//! * [`reference`], [`flatpak`]: what is run, and what it resolves to.
//! * [`supervisor`]: the watch over the launched process.
//! * [`bridge`], [`protocol`]: the helper outside the sandbox and the lines
//!   that it writes back.
//! * [`gui`], [`run_temp`]: what a window and a command line make of a run.
//! * [`config`], [`flatpak_repo`], [`locations`]: settings, and where things
//!   lie.
//! * [`text`]: the string helpers that the parsers share.
//! * [`outside`]: the few calls that leave the crate, taken on trust.

pub mod bridge;
pub mod config;
pub mod error;
pub mod flatpak;
pub mod flatpak_repo;
pub mod gui;
pub mod locations;
pub mod outside;
pub mod pipeline;
pub mod protocol;
pub mod reference;
pub mod repo;
pub mod run_temp;
pub mod supervisor;
pub mod text;
