//! Verified core of a small article service: the mapping between requests
//! for articles, commands for the storage engine, and the replies that
//! go back to the caller.

pub mod article;
pub mod command;
pub mod decimal;
pub mod engine;
pub mod error;
pub mod handlers;
pub mod laws;
pub mod model;
pub mod outcome;
pub mod response;
pub mod service;
