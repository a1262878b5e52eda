//! A high-throughput UDP echo cluster: many worker sockets bound to
//! one address through kernel port sharing, each served by its own
//! thread, with an optional kernel flow classifier that keeps a
//! client's packets on one worker, per-worker CPU pinning, a
//! synchronized startup barrier, and a message-passing throughput
//! aggregator.
//!
//! The library holds everything the cluster decides: the bind-target
//! grammar and its parser, the lifecycle state machine, the socket
//! build sequence, the serving loop's decision lattice, the count
//! batching, and the aggregation arithmetic — each with a proved
//! contract. The surrounding runtime owns what cannot be reasoned
//! about here: threads, blocking waits and the raw packet I/O.

pub mod errors;
pub mod addr;
pub mod affinity;
pub mod pinning;
pub mod counter;
pub mod worker;
pub mod client;
pub mod cluster;
