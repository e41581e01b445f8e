//! Search for the smallest re-encoding of an animated GIF that fits a size
//! budget: strategy generation, frame subsampling, lossy refinement, the
//! state shared by concurrent workers, and the ownership of transient files.

pub mod artifact;
pub mod command;
pub mod coordinator;
pub mod error;
pub mod frames;
pub mod refine;
pub mod search_state;
pub mod strategy;
pub mod worker;
