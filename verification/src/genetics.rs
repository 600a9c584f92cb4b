//! The genetic encoding and its two verified operations.
//!
//! A genome is a flat, fixed-length sequence of codons, one per controller
//! weight: codon `i * NUM_NEURONS + j` is the weight from neuron `i` to
//! neuron `j`. Mutation is applied as a per-codon perturbation plan: the
//! plan says, for each codon, either the replacement value or nothing.
//! Drawing the plan (the probabilistic choice and the Gaussian perturbation)
//! is floating-point work done by the unverified shell; applying it, and
//! deriving a controller from a genome, are verified here.

use vstd::prelude::*;

use crate::brain::{Brain, NUM_NEURONS};
use crate::scalar::Scalar;

verus! {

/// Number of codons in every genome: one per weight.
pub const NUM_CODONS: usize = NUM_NEURONS * NUM_NEURONS;

/// The genetic encoding of one controller.
pub type Genome = Vec<Scalar>;

/// The length invariant every genome keeps for the life of a run.
pub open spec fn genome_wf(genome: Seq<Scalar>) -> bool {
    genome.len() == NUM_CODONS
}

/// What applying a perturbation plan means: codon `i` becomes the plan's
/// replacement where one is given, and is untouched otherwise.
pub open spec fn mutated_genome(
    before: Seq<Scalar>,
    plan: Seq<Option<Scalar>>,
    after: Seq<Scalar>,
) -> bool {
    &&& after.len() == before.len()
    &&& forall|i: int|
        0 <= i < before.len() ==> #[trigger] after[i] == (match plan[i] {
            Some(value) => value,
            None => before[i],
        })
}

/// A genome of the fixed length with every codon zero.
pub fn zero_genome() -> (genome: Genome)
    ensures
        genome_wf(genome@),
        forall|i: int| 0 <= i < genome@.len() ==> (#[trigger] genome@[i]).bits == 0,
{
    let mut genome: Genome = Vec::new();
    let mut i: usize = 0;
    while i < NUM_CODONS
        invariant
            i <= NUM_CODONS,
            genome@.len() == i,
            forall|t: int| 0 <= t < i ==> (#[trigger] genome@[t]).bits == 0,
        decreases NUM_CODONS - i,
    {
        genome.push(Scalar::zero());
        i = i + 1;
    }
    genome
}

/// An exact copy of a genome.
pub fn clone_genome(genome: &Genome) -> (copy: Genome)
    ensures
        copy@ == genome@,
{
    let mut copy: Genome = Vec::new();
    let mut i: usize = 0;
    while i < genome.len()
        invariant
            i <= genome@.len(),
            copy@ == genome@.take(i as int),
        decreases genome@.len() - i,
    {
        copy.push(genome[i]);
        proof {
            assert(genome@.take(i + 1) =~= genome@.take(i as int).push(genome@[i as int]));
        }
        i = i + 1;
    }
    proof {
        assert(copy@ =~= genome@);
    }
    copy
}

/// Applies a perturbation plan to the genome, in place. Codons for which
/// the plan holds nothing keep their value exactly (no decay toward zero).
pub fn apply_mutation(genome: &mut Genome, plan: &Vec<Option<Scalar>>)
    requires
        old(genome)@.len() == plan@.len(),
    ensures
        mutated_genome(old(genome)@, plan@, final(genome)@),
{
    let mut i: usize = 0;
    while i < plan.len()
        invariant
            i <= plan@.len(),
            genome@.len() == old(genome)@.len() == plan@.len(),
            forall|t: int|
                0 <= t < i ==> #[trigger] genome@[t] == (match plan@[t] {
                    Some(value) => value,
                    None => old(genome)@[t],
                }),
            forall|t: int| i <= t < plan@.len() ==> #[trigger] genome@[t] == old(genome)@[t],
        decreases plan@.len() - i,
    {
        if let Some(value) = plan[i] {
            genome.set(i, value);
        }
        i = i + 1;
    }
}

/// Law: a perturbation plan that selects no codon is a no-op — the genome
/// after applying it equals the genome before, element for element.
pub proof fn lemma_empty_plan_is_identity(
    before: Seq<Scalar>,
    plan: Seq<Option<Scalar>>,
    after: Seq<Scalar>,
)
    requires
        before.len() == plan.len(),
        forall|i: int| 0 <= i < plan.len() ==> (#[trigger] plan[i]) is None,
        mutated_genome(before, plan, after),
    ensures
        after == before,
{
    assert(after =~= before);
}

/// Derives a controller from a genome: a pure, deterministic reshape of the
/// codon sequence into the weight matrix, with no aliasing between the two.
/// The activation vector starts at zero.
pub fn create_brain(genome: &Genome) -> (brain: Brain)
    requires
        genome_wf(genome@),
    ensures
        brain.wf(),
        forall|i: int, j: int|
            0 <= i < NUM_NEURONS && 0 <= j < NUM_NEURONS
                ==> #[trigger] brain.weight_spec(i, j) == genome@[i * NUM_NEURONS + j],
        forall|i: int| 0 <= i < NUM_NEURONS ==> (#[trigger] brain.activation@[i]).bits == 0,
{
    let mut brain = Brain::new();
    let mut weights: Vec<Vec<Scalar>> = Vec::new();
    let mut i: usize = 0;
    while i < NUM_NEURONS
        invariant
            i <= NUM_NEURONS,
            genome@.len() == NUM_CODONS,
            weights@.len() == i,
            forall|r: int| 0 <= r < i ==> (#[trigger] weights@[r])@.len() == NUM_NEURONS,
            forall|r: int, c: int|
                0 <= r < i && 0 <= c < NUM_NEURONS
                    ==> #[trigger] weights@[r]@[c] == genome@[r * NUM_NEURONS + c],
        decreases NUM_NEURONS - i,
    {
        let mut row: Vec<Scalar> = Vec::new();
        let mut j: usize = 0;
        while j < NUM_NEURONS
            invariant
                i < NUM_NEURONS,
                j <= NUM_NEURONS,
                genome@.len() == NUM_CODONS,
                row@.len() == j,
                forall|c: int|
                    0 <= c < j ==> #[trigger] row@[c] == genome@[i * NUM_NEURONS + c],
            decreases NUM_NEURONS - j,
        {
            row.push(genome[i * NUM_NEURONS + j]);
            j = j + 1;
        }
        weights.push(row);
        i = i + 1;
    }
    brain.weights = weights;
    brain
}

/// Law: the genome/weight correspondence is a round trip — reading the
/// derived matrix back under the codon index mapping reproduces the genome
/// element for element.
pub proof fn lemma_create_brain_round_trip(genome: Seq<Scalar>, brain: Brain)
    requires
        genome_wf(genome),
        brain.wf(),
        forall|i: int, j: int|
            0 <= i < NUM_NEURONS && 0 <= j < NUM_NEURONS
                ==> #[trigger] brain.weight_spec(i, j) == genome[i * NUM_NEURONS + j],
    ensures
        forall|k: int|
            0 <= k < NUM_CODONS
                ==> genome[k] == #[trigger] brain.weight_spec(
                    k / (NUM_NEURONS as int),
                    k % (NUM_NEURONS as int),
                ),
{
    assert forall|k: int| 0 <= k < NUM_CODONS implies genome[k] == #[trigger] brain.weight_spec(
        k / (NUM_NEURONS as int),
        k % (NUM_NEURONS as int),
    ) by {
        let n = NUM_NEURONS as int;
        let i = k / n;
        let j = k % n;
        assert(0 <= i < n && 0 <= j < n && i * n + j == k) by (nonlinear_arith)
            requires
                0 <= k < n * n,
                i == k / n,
                j == k % n,
                n == 32,
        ;
        assert(brain.weight_spec(i, j) == genome[i * NUM_NEURONS + j]);
    }
}

} // verus!
