//! Ingestion, grouping and geolocation caching for the log records of a network-facing service.

pub mod batch;
pub mod crawler;
pub mod dashboard;
pub mod error;
pub mod geolocation;
pub mod journal;
pub mod json;
pub mod logs;
pub mod models;
pub mod origin;
pub mod plan;
pub mod record;
pub mod text;
