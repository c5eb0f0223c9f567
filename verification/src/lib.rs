//! The rules of a service that follows video sources and keeps the list of followed uploaders in
//! order by itself.
pub mod alphabet;
pub mod api;
pub mod batch;
pub mod bili_error;
pub mod check;
pub mod config;
pub mod dedup;
pub mod details;
pub mod evaluation;
pub mod inspection;
pub mod manager;
pub mod migration;
pub mod number;
pub mod paging;
pub mod policy;
pub mod recency;
pub mod round;
pub mod schema;
pub mod seqs;
pub mod sources;
pub mod sync;
pub mod task;
pub mod template;
pub mod text;
pub mod time;
pub mod videos;
