//! A client-side core for the Gazebo Fuel model catalog.
//!
//! The crate holds the decisions of a catalog client and none of its
//! input or output: when a cached catalog is stale, which page to ask the
//! service for next and what to do with the answer, and the questions
//! asked of a catalog once it is held. A host performs the requests and
//! the file accesses and hands their outcomes in as plain values.
//!
//! A refresh runs like this. [`FuelClient::update_cache`] names the first
//! request. The host performs it, turns the reply into a [`PageOutcome`]
//! and hands that to [`Fetching::absorb`], which names the next request,
//! or asks for the cache file to be written, or ends the refresh. The
//! host answers a request to write with [`Persisting::conclude`].

pub mod client;
pub mod distinct;
pub mod model;
pub mod order;
pub mod query;
pub mod refresh;
pub mod staleness;
pub mod text;

pub use client::{FuelClient, DEFAULT_URL};
pub use model::FuelModel;
pub use refresh::{
    Fetching, Next, PageOutcome, PageRequest, Persisting, RefreshError, Step, StopCause,
};
pub use staleness::{CacheStamp, TimeSpan};
