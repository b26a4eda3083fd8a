//! Generation of the Kubernetes resource manifests (a stateful workload, a
//! headless service and an ingress) that deploy a clustered H2O compute
//! workload, parameterized by a resource name, a namespace and a container
//! image reference.
//!
//! The manifests are built as typed in-memory documents, so that every
//! derived field (resource names, labels, selectors, the discovery DNS name,
//! port wiring) is pinned by a contract; serialization and submission to a
//! cluster are left to the surrounding tooling.

pub mod args;
pub mod definitions;
pub mod names;
