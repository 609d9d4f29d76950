//! Decision logic of a word-count progress notifier: when a freshly sampled
//! count is worth announcing, and what is announced.

pub mod command;
pub mod composer;
pub mod config;
pub mod metric;
pub mod sampler;
pub mod scheduler;
pub mod settings;
pub mod text;
pub mod tracker;
