//! Reading a live event stream into messages, with reconnects paced by a
//! base or an hour-anchored wait, and the decisions of the reactions to the
//! games that the stream reports.
use vstd::prelude::*;

pub mod text;
pub mod grammar;
pub mod backoff;
pub mod event_source;
pub mod laws;
pub mod weather;
pub mod emoji;
pub mod game;
pub mod display;

verus! {

} // verus!
