//! Composable SQL query construction for PostgreSQL: filters, ordering,
//! limits and offsets with positionally numbered parameters, table metadata
//! and `CREATE TABLE` generation.
pub mod column;
pub mod data;
pub mod filter;
pub mod info;
pub mod json;
pub mod query;
pub mod table;
pub mod text;
pub mod time;
pub mod uid;
pub mod update;
pub mod util;
