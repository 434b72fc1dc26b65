//! Collections of videos: the records, the store and the services on them.

pub mod model;
pub mod store;
pub mod video;
pub mod service;
pub mod collection_builder;
