//! Query building for dumping tables to JSON files and restoring them.

pub mod pg_dumper;
pub mod sqlite_dumper;
