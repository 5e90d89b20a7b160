//! Scheduling, bookkeeping and result-shaping logic of a worker that keeps
//! technical-analysis indicator series computed and stored.

pub mod text;
pub mod patterns;
pub mod names;
pub mod params;
pub mod kernel;
pub mod emission;
pub mod job;
pub mod clock;
pub mod completeness;
pub mod cache;
pub mod producer;
pub mod consumer;
pub mod store;
pub mod validation;
pub mod refresh;
pub mod config;
pub mod strategy;
