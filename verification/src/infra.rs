//! What the library decides for the parts that touch the disk: names of
//! thumbnails, and which file holds which collection.

pub mod file_manager;
pub mod file_repositories;
