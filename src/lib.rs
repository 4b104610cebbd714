//! Turns raw document-store records into a typed property graph: one node per
//! record, directed labelled edges between namespaced node ids, idempotent
//! write descriptions, and the decisions of an ingestion job.

pub mod labels;
pub mod edge;
pub mod metadata;
pub mod records;
pub mod entity;
pub mod enrich;
pub mod writer;
pub mod job;
