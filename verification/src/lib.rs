//! A generational evolutionary engine: agents driven by fixed-topology
//! recurrent controllers whose weights are genetically encoded, selected
//! each generation by a survival zone, with an append-only history log
//! that can be resumed at a generation boundary.
//!
//! Real-valued quantities (weights, positions, radii) are carried as
//! [`scalar::Scalar`] bit patterns; the floating-point evaluation itself
//! (the neural update, the geometry, the random draws behind mutation and
//! placement) is left to the unverified shell around this library, which
//! hands the results back in as plain values.

use vstd::prelude::*;

pub mod brain;
pub mod dot;
pub mod genetics;
pub mod history;
pub mod random;
pub mod scalar;
pub mod viewer;

use crate::genetics::{clone_genome, create_brain, genome_wf, Genome};
use crate::brain::{Brain, NUM_NEURONS};
use crate::random::{fresh_id, pick_index};
use crate::scalar::Scalar;

verus! {

/// The survival region of one generation: a disc an agent must occupy at
/// generation end to reproduce.
#[derive(Clone, Copy, Debug, PartialEq, Eq, Structural)]
pub struct Zone {
    /// Center x coordinate.
    pub x: Scalar,
    /// Center y coordinate.
    pub y: Scalar,
    /// Radius of the disc.
    pub radius: Scalar,
}

/// The simulation mode and its parameters. A single variant today; the
/// scheduler's control flow does not depend on which variant is in force.
#[derive(Clone, Copy, Debug, PartialEq, Eq, Structural)]
pub enum SimulationMode {
    /// Survive by standing inside a randomly placed safe zone whose radius
    /// is drawn from the given bounds.
    SafeZoneRace {
        /// Lower bound of the zone radius.
        radius_low: Scalar,
        /// Upper bound of the zone radius.
        radius_high: Scalar,
    },
}

/// Per-run configuration, versioned per generation in the history log.
#[derive(Clone, Debug, PartialEq)]
pub struct Settings {
    /// Radius of the circular world boundary.
    pub world_radius: Scalar,
    /// Display title handed to the viewer.
    pub title: String,
    /// The safe zone currently in force, if one has been placed.
    pub zone: Option<Zone>,
    /// Probability that a codon is perturbed at reproduction.
    pub mutation_rate: Scalar,
    /// Scale factor of each perturbation.
    pub mutation_strength: Scalar,
    /// The population size every generation is filled to.
    pub num_agents: usize,
    /// Virtual time step of one tick.
    pub time_step: Scalar,
    /// Wall-clock milliseconds slept per tick when a viewer is attached.
    pub frame_interval: u32,
    /// The simulation mode in force.
    pub mode: SimulationMode,
    /// Virtual duration of one generation.
    pub generation_time: Scalar,
}

/// One agent: an identity, an optional parent identity, a 2D position,
/// its genome, and the controller derived from that genome.
#[derive(Debug)]
pub struct Agent {
    /// Globally unique identity.
    pub uuid: u128,
    /// The identity of the parent, or nothing for founders.
    pub parent: Option<u128>,
    /// Current position, mutated every tick.
    pub position: (Scalar, Scalar),
    /// The genetic encoding; immutable for the life of the agent.
    pub genome: Genome,
    /// The controller derived from the genome.
    pub brain: Brain,
}

impl Agent {
    /// Every agent keeps its genome at the fixed length and its controller
    /// weights derived from that genome by the codon index mapping.
    pub open spec fn wf(self) -> bool {
        &&& genome_wf(self.genome@)
        &&& self.brain.wf()
        &&& forall|i: int, j: int|
            0 <= i < NUM_NEURONS && 0 <= j < NUM_NEURONS
                ==> #[trigger] self.brain.weight_spec(i, j) == self.genome@[i * NUM_NEURONS + j]
    }

    /// A founder agent owning the given genome: fresh identity, no parent,
    /// the given starting position, controller derived from the genome.
    pub fn new(genome: Genome, position: (Scalar, Scalar)) -> (agent: Agent)
        requires
            genome_wf(genome@),
        ensures
            agent.wf(),
            agent.genome@ == genome@,
            agent.parent is None,
            agent.position == position,
    {
        let brain = create_brain(&genome);
        Agent { uuid: fresh_id(), parent: None, position, genome, brain }
    }

    /// An offspring of this agent, owning the already-mutated genome:
    /// fresh identity, parent set to this agent, the given starting
    /// position (positions are never inherited).
    pub fn procreate(&self, genome: Genome, position: (Scalar, Scalar)) -> (child: Agent)
        requires
            genome_wf(genome@),
        ensures
            child.wf(),
            child.genome@ == genome@,
            child.parent == Some(self.uuid),
            child.position == position,
    {
        let brain = create_brain(&genome);
        Agent { uuid: fresh_id(), parent: Some(self.uuid), position, genome, brain }
    }

    /// A founder clone, used when reseeding from the original seed
    /// population: the genome copied unchanged, fresh identity, no parent.
    pub fn clone_exact(&self, position: (Scalar, Scalar)) -> (copy: Agent)
        requires
            genome_wf(self.genome@),
        ensures
            copy.wf(),
            copy.genome@ == self.genome@,
            copy.parent is None,
            copy.position == position,
    {
        let genome = clone_genome(&self.genome);
        let brain = create_brain(&genome);
        Agent { uuid: fresh_id(), parent: None, position, genome, brain }
    }
}

/// What the scheduler decides at the end of an EVALUATING phase.
#[derive(Debug)]
pub enum Verdict {
    /// No agent survived: restart the run's lineage from its designated
    /// starting generation with the original seed population.
    Reseed,
    /// At least one agent survived: refill the population with offspring
    /// of the listed parents (indices into the evaluated population).
    Advance {
        /// The chosen parent for each offspring slot, drawn uniformly
        /// with replacement from the survivors.
        parents: Vec<usize>,
    },
}

impl Verdict {
    /// Whether this verdict restarts the lineage.
    pub fn is_reseed(&self) -> (r: bool)
        ensures
            r == (*self is Reseed),
    {
        match self {
            Verdict::Reseed => true,
            Verdict::Advance { .. } => false,
        }
    }
}

/// Concludes an EVALUATING phase from the per-agent survival flags.
/// With no survivor the verdict is `Reseed`; otherwise `Advance`, with one
/// parent pick per offspring slot, each pick drawn uniformly with
/// replacement from the surviving indices — so a survivor may produce
/// zero, one or several offspring in the same generation.
pub fn conclude_generation(survived: &Vec<bool>, num_agents: usize) -> (verdict: Verdict)
    ensures
        (verdict is Reseed) <==> (forall|i: int| 0 <= i < survived@.len() ==> !survived@[i]),
        verdict matches Verdict::Advance { parents } ==> {
            &&& parents@.len() == num_agents
            &&& forall|k: int|
                0 <= k < parents@.len()
                    ==> (#[trigger] parents@[k]) < survived@.len()
                        && survived@[parents@[k] as int]
        },
{
    let mut survivors: Vec<usize> = Vec::new();
    let mut i: usize = 0;
    while i < survived.len()
        invariant
            i <= survived@.len(),
            forall|t: int|
                0 <= t < survivors@.len()
                    ==> (#[trigger] survivors@[t]) < i && survived@[survivors@[t] as int],
            (survivors@.len() == 0) <==> (forall|j: int| 0 <= j < i ==> !survived@[j]),
        decreases survived@.len() - i,
    {
        if survived[i] {
            survivors.push(i);
        }
        i = i + 1;
    }
    if survivors.len() == 0 {
        return Verdict::Reseed;
    }
    let mut parents: Vec<usize> = Vec::new();
    let mut k: usize = 0;
    while k < num_agents
        invariant
            k <= num_agents,
            parents@.len() == k,
            survivors@.len() > 0,
            forall|t: int|
                0 <= t < survivors@.len()
                    ==> (#[trigger] survivors@[t]) < survived@.len()
                        && survived@[survivors@[t] as int],
            forall|t: int|
                0 <= t < parents@.len()
                    ==> (#[trigger] parents@[t]) < survived@.len()
                        && survived@[parents@[t] as int],
        decreases num_agents - k,
    {
        let idx = pick_index(survivors.len());
        parents.push(survivors[idx]);
        k = k + 1;
    }
    Verdict::Advance { parents }
}

/// ADVANCING: builds the next generation's population, one offspring per
/// parent pick. The caller supplies, slot for slot, the already-mutated
/// genome and the fresh starting position of each offspring. The new
/// population has exactly one agent per pick — with the picks of an
/// `Advance` verdict, exactly the configured population size.
pub fn next_population(
    population: &Vec<Agent>,
    parents: &Vec<usize>,
    genomes: &Vec<Genome>,
    positions: &Vec<(Scalar, Scalar)>,
) -> (offspring: Vec<Agent>)
    requires
        forall|k: int|
            0 <= k < parents@.len() ==> (#[trigger] parents@[k]) < population@.len(),
        genomes@.len() == parents@.len(),
        positions@.len() == parents@.len(),
        forall|k: int| 0 <= k < genomes@.len() ==> genome_wf((#[trigger] genomes@[k])@),
    ensures
        offspring@.len() == parents@.len(),
        forall|k: int|
            0 <= k < offspring@.len() ==> {
                let child = #[trigger] offspring@[k];
                &&& child.wf()
                &&& child.parent == Some(population@[parents@[k] as int].uuid)
                &&& child.genome@ == genomes@[k]@
                &&& child.position == positions@[k]
            },
{
    let mut offspring: Vec<Agent> = Vec::new();
    let mut k: usize = 0;
    while k < parents.len()
        invariant
            k <= parents@.len(),
            offspring@.len() == k,
            genomes@.len() == parents@.len(),
            positions@.len() == parents@.len(),
            forall|t: int|
                0 <= t < parents@.len() ==> (#[trigger] parents@[t]) < population@.len(),
            forall|t: int| 0 <= t < genomes@.len() ==> genome_wf((#[trigger] genomes@[t])@),
            forall|t: int|
                0 <= t < k ==> {
                    let child = #[trigger] offspring@[t];
                    &&& child.wf()
                    &&& child.parent == Some(population@[parents@[t] as int].uuid)
                    &&& child.genome@ == genomes@[t]@
                    &&& child.position == positions@[t]
                },
        decreases parents@.len() - k,
    {
        let genome = clone_genome(&genomes[k]);
        let child = population[parents[k]].procreate(genome, positions[k]);
        offspring.push(child);
        k = k + 1;
    }
    offspring
}

/// RESEEDING: rebuilds the population as founder clones of the originally
/// seeded agents — genome-equal, bit for bit, to the founders, with fresh
/// identities, no parents, and the supplied fresh starting positions.
pub fn reseed_population(
    founders: &Vec<Agent>,
    positions: &Vec<(Scalar, Scalar)>,
) -> (population: Vec<Agent>)
    requires
        positions@.len() == founders@.len(),
        forall|i: int|
            0 <= i < founders@.len() ==> genome_wf((#[trigger] founders@[i]).genome@),
    ensures
        population@.len() == founders@.len(),
        forall|i: int|
            0 <= i < population@.len() ==> {
                let copy = #[trigger] population@[i];
                &&& copy.wf()
                &&& copy.genome@ == founders@[i].genome@
                &&& copy.parent is None
                &&& copy.position == positions@[i]
            },
{
    let mut population: Vec<Agent> = Vec::new();
    let mut i: usize = 0;
    while i < founders.len()
        invariant
            i <= founders@.len(),
            population@.len() == i,
            positions@.len() == founders@.len(),
            forall|t: int|
                0 <= t < founders@.len() ==> genome_wf((#[trigger] founders@[t]).genome@),
            forall|t: int|
                0 <= t < i ==> {
                    let copy = #[trigger] population@[t];
                    &&& copy.wf()
                    &&& copy.genome@ == founders@[t].genome@
                    &&& copy.parent is None
                    &&& copy.position == positions@[t]
                },
        decreases founders@.len() - i,
    {
        let copy = founders[i].clone_exact(positions[i]);
        population.push(copy);
        i = i + 1;
    }
    population
}

/// The next generation number: a reseed goes back to the run's starting
/// generation, an advance adds one.
pub fn next_generation_number(verdict: &Verdict, current: usize, start: usize) -> (next: usize)
    requires
        current < usize::MAX,
    ensures
        (*verdict is Reseed) ==> next == start,
        (*verdict is Advance) ==> next == current + 1,
{
    match verdict {
        Verdict::Reseed => start,
        Verdict::Advance { .. } => current + 1,
    }
}

/// Replaces `setting` with the inner value of `option`, if there is one.
pub fn override_setting<T>(setting: &mut T, option: Option<T>)
    ensures
        match option {
            Some(value) => *final(setting) == value,
            None => *final(setting) == *old(setting),
        },
{
    if let Some(value) = option {
        *setting = value;
    }
}

} // verus!
