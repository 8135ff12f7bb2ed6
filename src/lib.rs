//! Looks up population records of a city in a comma-separated dataset.

pub mod record;
pub mod search;
pub mod laws;

pub use record::{Row, RowError};
pub use search::{DecodeError, PopulationCount, SearchError};
