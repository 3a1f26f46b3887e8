//! Verified decision core of a music-catalog client.
//!
//! The crate holds everything the client decides or computes once the
//! transport has answered: walking paginated listings, patching and checking
//! raw responses, reconciling what the catalog returned, assembling contexts
//! and search results, resolving radio stations and planning playlist edits.
//! Network and session I/O live with the caller, which hands plain values in
//! and takes plain values back.

pub mod auth;
pub mod client;
pub mod config;
pub mod dates;
pub mod error;
pub mod fetch;
pub mod ids;
pub mod model;
pub mod paging;
pub mod playlist;
pub mod radio;
pub mod reconcile;
pub mod seqs;
pub mod upstream;
