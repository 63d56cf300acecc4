//! Verified core of a tool-invocation server for the Cerebro card database.
//!
//! The library holds the dispatch and request-translation logic: the static
//! parameter tables advertised for each tool, validation of an invocation's
//! arguments against those tables, encoding of a validated filter as a
//! percent-encoded query string on a fixed resource path, and the rendering
//! of upstream outcomes and domain errors as tool results.  The surrounding
//! process (the duplex-stream session and the HTTP client) performs the I/O
//! and hands this library plain values.
use vstd::prelude::*;

pub mod args;
pub mod cards;
pub mod dispatch;
pub mod errors;
pub mod laws;
pub mod origin;
pub mod packs;
pub mod schema;
pub mod sets;
pub mod text;

verus! {

/// The fixed upstream host every encoded request is issued against.
pub const BASE_URL: &'static str = "https://cerebro-beta-bot.herokuapp.com/";

} // verus!
