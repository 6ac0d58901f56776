//! Reads RSS entries from a Miniflux server, groups them into configured topics,
//! asks a language model one question per topic, and renders a report.

pub mod app;
pub mod claude;
pub mod config;
pub mod error;
pub mod help;
pub mod report;
pub mod rss;
pub mod run;
pub mod state;
pub mod text;
pub mod time;
pub mod topic;
