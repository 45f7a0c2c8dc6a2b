//! Verified core of an image-transformation proxy: an option grammar
//! that turns a URL path segment into an ordered list of transform
//! steps, the exact geometry of every step, the per-configuration
//! planning of a batch request, and the decisions of the two request
//! flows. Pixel work, storage and the HTTP surface stay outside, called
//! through the plans this library produces.

pub mod config;
pub mod error;
pub mod geometry;
pub mod image_modifier;
pub mod image_processing;
pub mod process_image;
pub mod scale_image;
pub mod storage;
pub mod text;
