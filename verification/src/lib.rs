//! Fisher: a webhook receiver core.
//!
//! The crate models the validation and dispatch pipeline of a webhook
//! service: untrusted HTTP requests are classified by providers (GitHub,
//! GitLab, Standalone, Testing), accepted requests become jobs, and a
//! bounded processor dispatches jobs to workers while reporting health.
//! All decision logic lives here, verified; the network, filesystem and
//! thread plumbing around it lives outside the library.

pub mod dict;
pub mod errors;
pub mod hook;
pub mod json;
pub mod env_builder;
pub mod options;
pub mod processor;
pub mod providers;
pub mod requests;
pub mod strutil;
pub mod web;
