//! A columnar table store for a relational host: rows go into columnar files, scans
//! become queries of an embedded analytical engine with filters and sampling pushed
//! down. This crate holds the rules; the host and the engines are driven from outside.

pub mod datetime_util;
pub mod conversion;
pub mod extract_clauses;
pub mod storage;
pub mod registry;
pub mod settings;
pub mod custom_scan;
pub mod tam;
