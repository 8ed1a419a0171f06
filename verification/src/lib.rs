//! Core logic of a random-wallpaper changer: building search queries against a
//! curated-wallpaper API, selecting a page and an item at random from the
//! paginated results, deriving stable cache file names from remote URLs, and
//! driving the fetch-select-cache pipeline as a step-wise state machine whose
//! I/O actions are carried out by an unverified driver.

pub mod cache;
pub mod changer;
pub mod config;
pub mod query;
mod rng;
