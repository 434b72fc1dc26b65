//! Search: the index documents, the engine behind them and the service that
//! rebuilds the index from the store and publishes what a query selects.

pub mod engine;
pub mod document;
pub mod selection;
pub mod indexer;
pub mod memory_indexer;
pub mod search_service;
