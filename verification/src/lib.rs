//! Zero-downtime redeploy of a single named container service.
//!
//! The library holds the verified core of the deployer: the derivations from a
//! deployment name (lock marker, "next" container name, proxy upstream id),
//! the env-file line format, the lock-registry model, and the orchestration
//! state machine that sequences lock wait, image pull, provisioning, settle,
//! proxy cutover and decommissioning. All I/O (container runtime, proxy
//! control plane, filesystem) is performed by the driver around the library,
//! which executes the actions the machine requests and feeds back the events.

pub mod envfile;
pub mod laws;
pub mod lock;
pub mod machine;
pub mod names;
