//! What a catalog has shown once it has passed a scenario.
pub mod answers;
pub mod columns;
pub mod files;
pub mod freedom;
pub mod namespaces;
pub mod partitions;
pub mod snapshots;
pub mod sort_keys;
pub mod suite;
pub mod tables;
pub mod verdicts;
