//! Image helpers for page templates: logical-path resolution, image
//! dimension lookup and validation of resize requests.

pub mod error;
pub mod text;
pub mod resolve;
pub mod dimensions;
pub mod args;
pub mod metadata;
pub mod resize;
