//! Repository statistics client: identifiers, fetched records, response
//! decoding and the state that the viewer shows.

pub mod repo_id;
pub mod repo;
pub mod fetcher;
pub mod state;
pub mod github_stats;
pub mod controllers;
