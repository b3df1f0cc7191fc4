//! Core logic of an interactive terminal cluster dashboard.
//!
//! The dashboard runs two execution contexts: a render/tick loop that owns the
//! terminal and a sequential background worker that performs all slow cluster
//! queries. They communicate through a FIFO command queue and a single shared
//! state aggregate. This crate holds the verified heart of that design: the
//! configuration rule tying the poll cadence to the tick cadence, the
//! throttled refresh scheduler, the selectable-list cursor discipline, the
//! queue's FIFO model, and the worker's write-back rules. Terminal and
//! network plumbing live outside, in the unverified shell around this crate.

pub mod command;
pub mod config;
pub mod event;
pub mod records;
pub mod render;
pub mod selectable_list;
pub mod state;
pub mod worker;
