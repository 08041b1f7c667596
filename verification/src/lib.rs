//! Verified core of an S3-triggered image resizing service.

pub mod clients;
pub mod clock;
pub mod decimal;
pub mod error;
pub mod handler;
pub mod keys;
pub mod models;
pub mod services;
