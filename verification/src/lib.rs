pub mod configs;
pub mod consumer;
pub mod metrics;
pub mod stats;
pub mod watcher;
