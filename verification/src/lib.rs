//! A job-provisioning library: validation of client-supplied script paths,
//! content scanning against a denylist, argument sanitization, and the
//! lifecycle of asynchronously executed jobs recorded in a job store.
pub mod job;
pub mod laws;
pub mod service;
pub mod store;
pub mod text;
pub mod validate;
