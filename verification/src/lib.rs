//! Orchestration core of a media-synthesis job pipeline.
//!
//! A job is a source video and an avatar image, optionally with captions.
//! It is admitted under a short unique code, driven through a pipeline of
//! steps that an external executor performs, tracked in a task store until
//! it has finished or failed, and swept away a week later.
//!
//! The core decides; it performs no input or output. Each stage worker is a
//! state machine that names the next action and is told how it went
//! ([`worker`]); the calls to the executor and the paths of a job are
//! derived from its code ([`controller`], [`utils`]); the task store is a
//! table of rows with field-scoped writes, whose laws are proved over its
//! contents ([`database`]); admission and the answers to callers are in
//! [`api`], code allocation in [`code`], the retention sweep in [`timer`].
//! What comes from outside crates (parsing of times, dates and addresses,
//! random numbers, the clock, the bounded queues) stands behind a small number
//! of trusted wrappers, each documented where it is declared.

pub mod api;
pub mod code;
pub mod controller;
pub mod database;
pub mod date;
pub mod model;
pub mod text;
pub mod timer;
pub mod utils;
pub mod worker;
