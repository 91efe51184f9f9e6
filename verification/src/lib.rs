//! Decisions of a port-forwarding bridge between a workload in a cluster and a
//! port of the local machine: which workload, container and port are chosen,
//! how the tunnel is opened, how local requests share it, and how it stops.

pub mod container;
pub mod error;
pub mod listener;
pub mod monitor;
pub mod namespace;
pub mod pod;
pub mod port;
pub mod proofs;
pub mod scenario;
pub mod tunnel;
