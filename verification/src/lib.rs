//! Resolving tickers to CIKs, building EDGAR browse queries and reading the
//! filing metadata that EDGAR's Atom feed carries.
pub mod edgar;
pub mod edgar_query;
pub mod error;
pub mod text;
pub mod utils;
