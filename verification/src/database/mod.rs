//! The results database: keys, records, and the SQL that selects them.

pub mod query;
pub mod utilities;
