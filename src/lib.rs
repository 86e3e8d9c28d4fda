//! Scan job orchestration: collision-free asset paths, the device catalog,
//! the scan job lifecycle and the schema migration plan.

pub mod decimal;
pub mod asset_path;
pub mod allocator;
pub mod scans;
pub mod executor;
pub mod scanners;
pub mod migrations;
