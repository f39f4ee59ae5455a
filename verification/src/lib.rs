//! A live audio/video switcher core: sources are composited onto one shared
//! timeline and fanned out to any number of destinations, while sources and
//! destinations may be added, removed or reconfigured without interrupting
//! the ones already running.
//!
//! This crate holds the orchestration logic: per-source subgraph state,
//! asynchronous attach decisions, zorder/placement bookkeeping, and the
//! registries of attached inputs and outputs. The media engine itself
//! (element instantiation, real pad linking, clock reads) lives outside;
//! its observations are handed in as plain values and every decision taken
//! on them is verified here.

pub mod config;
pub mod input;
pub mod mixer;
pub mod output;
pub mod pad;
pub mod pipeline;

use vstd::prelude::*;

verus! {

/// The error kinds every switcher operation can surface.
///
/// `Graph` covers a rejected construction, property or link operation on the
/// stream graph; `NotFound` an operation that referenced an unknown input or
/// output name; `System` a host failure such as an unavailable clock.
#[derive(Clone, Copy, Debug, PartialEq, Eq, Structural)]
pub enum Error {
    Graph,
    NotFound,
    System,
}

} // verus!
