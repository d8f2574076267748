//! The decisions of a transaction load generator: how many sender tasks to run, what each of
//! them submits and when, how a block's throughput is measured, and when to start over.
//!
//! Everything here is a function of plain values. The binary in `app/` talks to the node, keeps
//! the time and sleeps; it feeds what happened to the state machines of this crate and performs
//! the actions that they hand back.

pub mod account;
pub mod block;
pub mod connect;
pub mod failure;
pub mod lookup;
pub mod monitor;
pub mod payload;
pub mod plan;
pub mod scale;
pub mod seeding;
pub mod session;
pub mod text;
pub mod trace;
pub mod worker;
