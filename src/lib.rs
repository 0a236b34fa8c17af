//! Capture-and-assemble pipeline for a slide viewer: readiness polling,
//! slide enumeration, frame storage and page layout, each as verified logic
//! that an outer driver feeds with what the browser and the file system report.

pub mod assemble;
pub mod enumerate;
pub mod error;
pub mod geometry;
pub mod pipeline;
pub mod raster;
pub mod readiness;
pub mod store;
