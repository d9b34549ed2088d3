//! The anomaly verdict on a model's score, and the dataset a model is
//! trained on.

pub mod data;
pub mod engine;
