//! Rate-gated batch fetching of proxy records.
//!
//! A [`fetcher::Session`] owns one shared timing gate; every
//! [`fetcher::Fetcher`] derived from it buffers records locally and decides,
//! step by step, when the remote listing service may be contacted again.
//! The remote call itself and the thread suspension around it are left to the
//! embedding application; this crate verifies the decisions: buffer
//! bookkeeping, tier handling, and the minimum-interval arithmetic.

pub mod constants;
pub mod fetcher;
pub mod gate;
pub mod opts;
pub mod types;
