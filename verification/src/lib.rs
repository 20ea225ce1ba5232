//! Verified core of a small file-sharing service for devices on a local
//! network: an in-memory index of persisted files, the staging logic of a
//! chunked upload, a presence registry with a staleness threshold, the state
//! machine of a real-time session, and a sliding-window rate limiter.

pub mod clock;
pub mod connection;
pub mod device;
pub mod discovery_service;
pub mod errors;
pub mod file;
pub mod file_repository;
pub mod file_service;
pub mod file_store;
pub mod http;
pub mod ids;
pub mod message;
pub mod rate_limit;
pub mod response;
