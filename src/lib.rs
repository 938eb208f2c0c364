//! Generic CRUD scaffolding for REST resources backed by a table.
//!
//! - `outcome` and `status`: how validation and data-access outcomes become
//!   HTTP answers.
//! - `table`: an in-memory data-access layer with storage-assigned identifiers.
//! - `controller`: the five request handlers over a table.
//! - `router`: the fixed five-endpoint shape of a resource.
//! - `adapters`: sqlx and validator results in the library's terms.
//! - `laws`: properties that hold across the operations.

pub mod adapters;
pub mod controller;
pub mod laws;
pub mod outcome;
pub mod router;
pub mod status;
pub mod table;
