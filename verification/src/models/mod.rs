pub mod config;
pub mod metadata;
