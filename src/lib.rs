//! Typed bindings for the Hacker News API.
//!
//! The library models the generic item record that the item endpoint returns for
//! every kind of entity, resolves its kind discriminator, and narrows it into a
//! strongly typed story, comment, job, poll or poll option, reporting a recoverable
//! error when the item does not fit. Users, the realtime lists and the endpoint
//! addresses are modelled here too; the network transport lives outside it.
use vstd::prelude::*;

pub mod client;
pub mod errors;
pub mod http;
pub mod items;
pub mod realtime;
pub mod timestamp;
pub mod users;

verus! {

/// The ID associated to all Hacker News items.
pub type HackerNewsID = u32;

} // verus!
