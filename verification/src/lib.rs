//! A WebSocket client session, written without I/O: the decisions of the
//! session actor as state machines whose transitions carry contracts.
//!
//! [`upgrade`] admits a request, one question to the outside world at a
//! time. [`session`] is the actor that then owns the connection: it is told
//! what happened and says what to do next, in the terms of [`protocol`].
//! [`model`] holds the same transitions as mathematics, and [`laws`] what
//! follows from them for every session. [`message`], [`metrics`], [`pool`]
//! and [`connection`] are the parts that these are made of.

pub mod connection;
pub mod laws;
pub mod message;
pub mod metrics;
pub mod model;
pub mod pool;
pub mod protocol;
pub mod session;
pub mod upgrade;
