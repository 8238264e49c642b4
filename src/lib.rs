//! Virtual-table protocol for a remote dataset search service: argument
//! binding, a single eager fetch, and chunked row production, with the
//! request building and record conversion that sit between them.
pub mod api;
pub mod error;
pub mod table_function;

pub use error::DatenoError;
pub use table_function::{DatenoSearchBindData, DatenoSearchFunction, DatenoSearchInitData};
