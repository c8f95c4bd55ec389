//! The model of the presentation surface and the decisions of the threads
//! that feed it and draw on it.

pub mod ingestion;
pub mod pipeline;
pub mod presentation;
pub mod vk;
pub mod vkinit;
