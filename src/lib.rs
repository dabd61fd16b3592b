//! Path resolution, directory listing and image-serving decisions for a small
//! image browsing and resizing service.

pub mod text;
pub mod paths;
pub mod times;
pub mod entries;
pub mod listing;
pub mod pipeline;
