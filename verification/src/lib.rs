//! A keyed time-to-live cache together with the policy rules that turn a
//! plain computation into a cache-backed one.
//!
//! `cache` holds the store itself: a map from string keys to values with an
//! expiry instant, and the get-or-compute operation over it. `policy` holds
//! the wrapper-generation rules: which options configure a cached wrapper and
//! which parameter of the wrapped computation serves as the cache key.

pub mod cache;
pub mod policy;
