//! Events for the external viewer collaborator.
//!
//! The core produces these fire-and-forget: the transport (a broadcast
//! server relaying them to remote viewers) is an external collaborator and
//! lives in the unverified shell. What is verified here is the construction
//! of the events — in particular that a frame lists positions in exactly
//! the order of the population it was taken from.

use vstd::prelude::*;

use crate::genetics::{clone_genome, Genome};
use crate::scalar::Scalar;
use crate::{Agent, Zone};

verus! {

/// What the viewer needs of the run's configuration.
#[derive(Debug)]
pub struct Settings {
    /// Radius of the circular world boundary.
    pub radius: Scalar,
    /// The safe zone currently in force, if one has been placed.
    pub zone: Option<Zone>,
}

/// One event of the one-way core-to-viewer stream.
#[derive(Debug)]
pub enum Event {
    /// The positions of the current population, in population order.
    Frame(Vec<(Scalar, Scalar)>),
    /// Discard all previously spawned agents.
    Clear,
    /// New agents: identity and genome snapshot, in population order.
    Spawn(Vec<(u128, Genome)>),
    /// Agents removed, by index.
    Kill(Vec<usize>),
    /// The configuration changed.
    Settings(Settings),
}

/// The spawn event announcing `agents`: one (identity, genome) pair per
/// agent, in population order.
pub fn spawn(agents: &Vec<Agent>) -> (event: Event)
    ensures
        event matches Event::Spawn(entries) && entries@.len() == agents@.len() && forall|i: int|
            0 <= i < agents@.len() ==> (#[trigger] entries@[i]).0 == agents@[i].uuid
                && entries@[i].1@ == agents@[i].genome@,
{
    let mut entries: Vec<(u128, Genome)> = Vec::new();
    let mut i: usize = 0;
    while i < agents.len()
        invariant
            i <= agents@.len(),
            entries@.len() == i,
            forall|t: int|
                0 <= t < i ==> (#[trigger] entries@[t]).0 == agents@[t].uuid && entries@[t].1@
                    == agents@[t].genome@,
        decreases agents@.len() - i,
    {
        let agent = &agents[i];
        entries.push((agent.uuid, clone_genome(&agent.genome)));
        i = i + 1;
    }
    Event::Spawn(entries)
}

/// The frame event for the current tick: the agents' positions, ordered
/// identically to the population.
pub fn frame(agents: &Vec<Agent>) -> (event: Event)
    ensures
        event matches Event::Frame(positions) && positions@.len() == agents@.len() && forall|
            i: int,
        |
            0 <= i < agents@.len() ==> (#[trigger] positions@[i]) == agents@[i].position,
{
    let mut positions: Vec<(Scalar, Scalar)> = Vec::new();
    let mut i: usize = 0;
    while i < agents.len()
        invariant
            i <= agents@.len(),
            positions@.len() == i,
            forall|t: int| 0 <= t < i ==> (#[trigger] positions@[t]) == agents@[t].position,
        decreases agents@.len() - i,
    {
        positions.push(agents[i].position);
        i = i + 1;
    }
    Event::Frame(positions)
}

} // verus!
