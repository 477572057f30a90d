//! Dataset preparation for 3D reconstruction: the project record and its staged
//! pipeline, the coordinate transforms between display, source and network
//! space, and the point-prompted segmentation engine.

pub mod engine;
pub mod frames;
pub mod pipeline;
pub mod preprocess;
pub mod project;
pub mod prompt;
pub mod transform;
pub mod video;
