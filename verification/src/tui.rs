//! The consumer side: what the dashboard shows.

pub mod app;
