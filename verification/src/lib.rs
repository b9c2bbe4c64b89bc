//! A BullMQ-compatible job queue on Redis: the verified core.
//!
//! This crate holds the logic of the queue that does not itself talk to Redis:
//! validated names and identifiers, the Redis key layout of a queue, the job
//! options and their BullMQ wire form, the argument lists handed to the Lua
//! scripts, the interpretation of what those scripts answer, the scheduler
//! arithmetic, event parsing and the decisions of the worker loops.
mod text;

pub mod number;

pub mod name;
pub mod ids;
pub mod time;
pub mod options;
pub mod wire;
pub mod reply;
pub mod errors;
pub mod script;
pub mod commands;
pub mod jobs;
pub mod fields;
pub mod active;
pub mod finish;
pub mod scheduler;
pub mod scheduler_store;
pub mod events;
pub mod worker;
pub mod join;
pub mod flow;
pub mod bulk;
