//! Finds Kubernetes ConfigMaps that no live workload references.
//!
//! The library holds the verified core of the cleaner: the model of a
//! workload's pod template, the extraction of every ConfigMap reference a
//! template can carry, and the reconciliation that turns the declared and
//! used name sets into deletion candidates, subject to exemptions and an
//! optional regular-expression filter. Listing and deleting objects against
//! a cluster is left to the surrounding application, which hands the results
//! in as plain values.

pub mod cli;
pub mod extract;
pub mod laws;
pub mod model;
pub mod names;
pub mod pattern;
pub mod reconcile;
