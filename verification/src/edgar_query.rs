//! Building the query that is sent to EDGAR, and reading what comes back.
pub mod cik_query;
pub mod edgar_query_builder;
pub mod filing;
pub mod filing_content_value;
pub mod owner;
