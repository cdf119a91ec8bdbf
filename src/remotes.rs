//! The external sources of bibliographic data and documents.
pub mod arxiv;
pub mod dblp;
pub mod scihub;
