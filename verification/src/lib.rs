//! A caching forward HTTP proxy: the decisions it makes on requests,
//! responses and its in-memory response store, with their contracts.

pub mod cache_control;
pub mod cli;
pub mod error;
pub mod headers;
pub mod policy;
pub mod proxy;
pub mod request_log;
pub mod store;
pub mod tls;

pub use policy::is_cacheable_response;
pub use store::{CacheEntry, DataStore};
pub use error::BurleyError;
