//! Session signaling through an external executable: the argument vectors and
//! exit-status reduction of each operation, a one-shot rendezvous counter, and
//! the fixed join, send, close script that each actor follows.

pub mod actor;
pub mod invocation;
pub mod rendezvous;
