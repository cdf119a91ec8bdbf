//! A personal reference manager: a bibliography kept in sync with a remote
//! git repository, and a cache of documents fetched for its entries.
//!
//! The decisions of the tool live here and are verified: where the store is,
//! what a synchronization runs and in which order, how an identifier is turned
//! into a cache file and a download, and how a landing page is scraped. The
//! subprocesses, HTTP requests and file writes are performed by the caller,
//! which feeds their outcomes back into the state machines of this crate.

pub mod text;
pub mod error;
pub mod remotes;
pub mod retrieval;
pub mod sync;
pub mod config;
pub mod library;
