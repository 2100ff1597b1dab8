//! The reserved names under which the system catalog table is known.
//!
//! They are the fixed address from which a database finds its own catalog
//! again, and are the same in every process.

use vstd::prelude::*;

verus! {

/// The catalog that holds the system catalog table.
pub const SYSTEM_CATALOG_NAME: &'static str = "system";

/// The schema that holds the system catalog table.
pub const INFORMATION_SCHEMA_NAME: &'static str = "information_schema";

/// The name of the system catalog table.
pub const SYSTEM_CATALOG_TABLE_NAME: &'static str = "system_catalog";

/// The id of the system catalog table.
pub const SYSTEM_CATALOG_TABLE_ID: u32 = 0;

} // verus!
