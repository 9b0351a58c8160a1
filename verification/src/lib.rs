//! Relocation of a workload pod between cluster nodes by delete-and-recreate.
//!
//! The relocation engine inventories the pods scheduled on a source node,
//! picks a candidate, derives the replacement pod's name, and walks a
//! two-phase, non-transactional protocol: delete the old pod, then create a
//! replacement pinned to the target node by a required node-affinity term.
//! All cluster I/O is performed by the surrounding program; this crate holds
//! the decisions and the data, with their contracts.

pub mod names;
pub mod records;
pub mod planner;
pub mod engine;
