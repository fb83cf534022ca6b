//! Reconciliation core for a Kubernetes operator that manages Stellar
//! blockchain infrastructure nodes (validators, Horizon API servers and
//! Soroban RPC servers).
//!
//! The crate models the declared node resource, the child resources derived
//! from it (storage claim, configuration bundle, workload, service and
//! autoscaler) and the control loop that converges a cluster toward the
//! declaration.  Every decision the loop makes — validation, desired-state
//! construction, ordering of child operations, status projection and retry
//! scheduling — is implemented here as verified code with contracts; the
//! surrounding process (cluster API calls, leader election, HTTP serving)
//! drives these functions from outside.

pub mod types;
pub mod error;
pub mod labels;
pub mod children;
pub mod desired;
pub mod cluster;
pub mod reconciler;
pub mod laws;
pub mod dto;
