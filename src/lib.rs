//! Verified core of an AI photo-booth backend: the catalog of modes, effects
//! and styles, photo sessions and orders kept in an in-memory store, the
//! orchestration of an image generation run, the decision logic of the image
//! generation client and the (stubbed) payment client.
mod ambient;
pub mod catalog;
pub mod commands;
pub mod decimal;
pub mod error;
pub mod generation;
pub mod model;
pub mod orchestrator;
pub mod payment;
pub mod prompt;
pub mod store;
pub mod table;
pub mod text;
