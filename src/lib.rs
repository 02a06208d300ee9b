//! A file-backup library: it resolves exclude rules, decides which discovered
//! files go into size-bounded containers and which bypass them, and describes
//! every archive it completes.

pub mod model;
pub mod laws;
pub mod backup;
pub mod scan;
pub mod paths;
