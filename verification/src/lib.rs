//! The system catalog table: the reserved table in which a database records
//! which catalogs, schemas and tables exist.

pub mod consts;
pub mod entry;
pub mod error;
pub mod json;
pub mod key;
pub mod requests;
pub mod schema;
pub mod system;
pub mod text;
