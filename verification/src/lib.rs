//! A personal video library: collections of videos, the store that owns them,
//! the events that announce every change, and a full-text index that is rebuilt
//! from the store before each query.

pub mod text;
pub mod clock;
pub mod event_bus;
pub mod collections;
pub mod repositories;
pub mod search;
pub mod infra;
pub mod video;
