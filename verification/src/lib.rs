//! Currency conversion over quoted exchange rates, with a time-bounded
//! per-pair rate cache and the cache-aside lookup built on it.

pub mod api;
pub mod cache;
pub mod rate;
pub mod service;
pub mod session;

pub use cache::RateCache;
pub use rate::Rate;
pub use service::ApiResponse;
