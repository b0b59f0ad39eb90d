//! Finds the bibliography entries that a document never cites.
//!
//! The library holds the three stages of the check: extracting citation keys
//! from document text, decoding the bibliography's records, and computing
//! which records stay uncited, together with the lines of the final report.

pub mod bibliography;
pub mod citation;
pub mod difference;
pub mod document;
pub mod report;

pub use bibliography::{citations_from_fields, get_citations_bibliography};
pub use citation::{CitationError, Citations};
pub use difference::get_citation_difference;
pub use document::{get_bibliography_path, get_citations_document};
pub use report::report_lines;
