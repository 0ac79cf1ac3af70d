//! An in-memory task tracker: users own ordered lists of tasks, and six
//! operations create users and create, list, fetch, update and delete tasks.
//!
//! Identifiers are 128-bit values. The two stores are plain data structures;
//! whoever shares them between threads guards each with its own lock.
pub mod models;
pub mod ids;
pub mod text;
pub mod errors;
pub mod db;
pub mod operations;
pub mod laws;
