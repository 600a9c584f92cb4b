use evosim::brain::{Brain, Input, Output, NUM_FIXED, NUM_INPUTS, NUM_NEURONS};
use evosim::dot::graph_structure;
use evosim::genetics::{apply_mutation, create_brain, zero_genome, Genome, NUM_CODONS};
use evosim::scalar::Scalar;
use evosim::viewer::{frame, spawn, Event};
use evosim::{
    conclude_generation, next_generation_number, next_population, override_setting,
    reseed_population, Agent, Verdict,
};

fn scalar_of(x: f32) -> Scalar {
    Scalar::from_bits(x.to_bits())
}

fn genome_of_index_bits() -> Genome {
    let mut genome: Genome = Vec::new();
    for k in 0..NUM_CODONS {
        genome.push(Scalar::from_bits(k as u32));
    }
    genome
}

fn origin() -> (Scalar, Scalar) {
    (Scalar::zero(), Scalar::zero())
}

#[test]
fn scalar_round_trip() {
    let s = scalar_of(1.5);
    assert_eq!(s.to_bits(), 1.5f32.to_bits());
    assert_eq!(Scalar::zero().to_bits(), 0);
    assert_eq!(scalar_of(-2.25).to_bits(), (-2.25f32).to_bits());
}

#[test]
fn slot_layout() {
    assert_eq!(Input::Constant.slot(), 0);
    assert_eq!(Input::Oscillator.slot(), 1);
    assert_eq!(Input::X.slot(), 2);
    assert_eq!(Input::Y.slot(), 3);
    assert_eq!(Input::SafeX.slot(), 4);
    assert_eq!(Input::SafeY.slot(), 5);
    assert_eq!(Input::SafeRadius.slot(), 6);
    assert_eq!(Output::SpeedX.slot(), NUM_INPUTS);
    assert_eq!(Output::SpeedY.slot(), NUM_INPUTS + 1);
    assert_eq!(NUM_FIXED, 9);
    assert_eq!(NUM_NEURONS, 32);
    assert_eq!(NUM_CODONS, 1024);
}

#[test]
fn brain_starts_at_zero() {
    let brain = Brain::new();
    assert_eq!(brain.weights.len(), NUM_NEURONS);
    for row in &brain.weights {
        assert_eq!(row.len(), NUM_NEURONS);
        for w in row {
            assert_eq!(w.to_bits(), 0);
        }
    }
    for a in &brain.activation {
        assert_eq!(a.to_bits(), 0);
    }
}

#[test]
fn brain_input_output_slots() {
    let mut brain = Brain::new();
    brain.input(Input::SafeRadius, scalar_of(4.0));
    assert_eq!(brain.activation[6].to_bits(), 4.0f32.to_bits());
    brain.activation[Output::SpeedY.slot()] = scalar_of(-1.0);
    assert_eq!(brain.output(Output::SpeedY).to_bits(), (-1.0f32).to_bits());
    assert_eq!(brain.output(Output::SpeedX).to_bits(), 0);
}

#[test]
fn create_brain_reshapes_codons() {
    // Every codon carries its own index, so each weight names its codon.
    let genome = genome_of_index_bits();
    let brain = create_brain(&genome);
    for i in 0..NUM_NEURONS {
        for j in 0..NUM_NEURONS {
            assert_eq!(brain.weights[i][j].to_bits(), (i * NUM_NEURONS + j) as u32);
        }
    }
    // Round trip: reading the matrix back reproduces the genome.
    for k in 0..NUM_CODONS {
        assert_eq!(
            brain.weights[k / NUM_NEURONS][k % NUM_NEURONS].to_bits(),
            genome[k].to_bits()
        );
    }
}

#[test]
fn zero_genome_is_all_zero() {
    let genome = zero_genome();
    assert_eq!(genome.len(), NUM_CODONS);
    for codon in &genome {
        assert_eq!(codon.to_bits(), 0);
    }
}

#[test]
fn apply_mutation_replaces_selected_codons_only() {
    let mut genome: Genome = vec![scalar_of(1.0), scalar_of(2.0), scalar_of(3.0)];
    let plan = vec![None, Some(scalar_of(9.0)), None];
    apply_mutation(&mut genome, &plan);
    assert_eq!(genome[0].to_bits(), 1.0f32.to_bits());
    assert_eq!(genome[1].to_bits(), 9.0f32.to_bits());
    assert_eq!(genome[2].to_bits(), 3.0f32.to_bits());
}

#[test]
fn mutation_without_selection_is_identity() {
    // A zero mutation rate selects no codon; the plan is then all empty
    // and applying it must change nothing.
    let mut genome = genome_of_index_bits();
    let plan: Vec<Option<Scalar>> = (0..NUM_CODONS).map(|_| None).collect();
    apply_mutation(&mut genome, &plan);
    let expected = genome_of_index_bits();
    for k in 0..NUM_CODONS {
        assert_eq!(genome[k].to_bits(), expected[k].to_bits());
    }
}

#[test]
fn override_setting_applies_only_some() {
    let mut value: u32 = 7;
    override_setting(&mut value, None);
    assert_eq!(value, 7);
    override_setting(&mut value, Some(12));
    assert_eq!(value, 12);
}

#[test]
fn conclude_with_no_survivors_reseeds() {
    let verdict = conclude_generation(&vec![false, false, false], 5);
    assert!(verdict.is_reseed());
}

#[test]
fn conclude_with_survivors_fills_population() {
    let survived = vec![false, true, true, false];
    let verdict = conclude_generation(&survived, 10);
    match verdict {
        Verdict::Reseed => panic!("survivors present, must advance"),
        Verdict::Advance { parents } => {
            assert_eq!(parents.len(), 10);
            for p in parents {
                assert!(survived[p]);
            }
        }
    }
}

#[test]
fn conclude_with_single_survivor_picks_it_always() {
    let survived = vec![false, false, true];
    match conclude_generation(&survived, 6) {
        Verdict::Reseed => panic!("a survivor exists"),
        Verdict::Advance { parents } => {
            assert_eq!(parents.len(), 6);
            for p in parents {
                assert_eq!(p, 2);
            }
        }
    }
}

#[test]
fn generation_counter_follows_verdict() {
    let reseed = Verdict::Reseed;
    let advance = Verdict::Advance { parents: vec![0] };
    assert_eq!(next_generation_number(&reseed, 17, 3), 3);
    assert_eq!(next_generation_number(&advance, 17, 3), 18);
}

#[test]
fn agent_new_is_a_founder() {
    let agent = Agent::new(zero_genome(), (scalar_of(1.0), scalar_of(2.0)));
    assert!(agent.parent.is_none());
    assert_eq!(agent.genome.len(), NUM_CODONS);
    assert_eq!(agent.position.0.to_bits(), 1.0f32.to_bits());
    assert_eq!(agent.position.1.to_bits(), 2.0f32.to_bits());
}

#[test]
fn procreate_links_parent_and_adopts_genome() {
    let parent = Agent::new(zero_genome(), origin());
    let child_genome = genome_of_index_bits();
    let child = parent.procreate(child_genome, (scalar_of(5.0), scalar_of(6.0)));
    assert_eq!(child.parent, Some(parent.uuid));
    for k in 0..NUM_CODONS {
        assert_eq!(child.genome[k].to_bits(), k as u32);
        assert_eq!(
            child.brain.weights[k / NUM_NEURONS][k % NUM_NEURONS].to_bits(),
            k as u32
        );
    }
}

#[test]
fn clone_exact_copies_genome_without_parent() {
    let founder = Agent::new(genome_of_index_bits(), origin());
    let copy = founder.clone_exact((scalar_of(3.0), scalar_of(4.0)));
    assert!(copy.parent.is_none());
    for k in 0..NUM_CODONS {
        assert_eq!(copy.genome[k].to_bits(), founder.genome[k].to_bits());
    }
    assert_eq!(copy.position.0.to_bits(), 3.0f32.to_bits());
}

#[test]
fn next_population_builds_one_child_per_pick() {
    let population = vec![
        Agent::new(zero_genome(), origin()),
        Agent::new(genome_of_index_bits(), origin()),
    ];
    let parents = vec![1, 0, 1];
    let genomes = vec![zero_genome(), genome_of_index_bits(), zero_genome()];
    let positions = vec![
        (scalar_of(1.0), scalar_of(1.0)),
        (scalar_of(2.0), scalar_of(2.0)),
        (scalar_of(3.0), scalar_of(3.0)),
    ];
    let offspring = next_population(&population, &parents, &genomes, &positions);
    assert_eq!(offspring.len(), 3);
    assert_eq!(offspring[0].parent, Some(population[1].uuid));
    assert_eq!(offspring[1].parent, Some(population[0].uuid));
    assert_eq!(offspring[2].parent, Some(population[1].uuid));
    for k in 0..NUM_CODONS {
        assert_eq!(offspring[1].genome[k].to_bits(), k as u32);
        assert_eq!(offspring[0].genome[k].to_bits(), 0);
    }
    assert_eq!(offspring[2].position.0.to_bits(), 3.0f32.to_bits());
}

#[test]
fn reseed_rebuilds_founder_clones() {
    // After a generation with no survivors, the next population is
    // genome-equal, bit for bit, to the originally seeded founders.
    let founders = vec![
        Agent::new(genome_of_index_bits(), origin()),
        Agent::new(zero_genome(), origin()),
    ];
    let positions = vec![origin(), origin()];
    let population = reseed_population(&founders, &positions);
    assert_eq!(population.len(), 2);
    for (copy, founder) in population.iter().zip(founders.iter()) {
        assert!(copy.parent.is_none());
        assert_eq!(copy.genome.len(), founder.genome.len());
        for k in 0..NUM_CODONS {
            assert_eq!(copy.genome[k].to_bits(), founder.genome[k].to_bits());
        }
    }
}

#[test]
fn spawn_event_lists_population_in_order() {
    let agents = vec![
        Agent::new(zero_genome(), origin()),
        Agent::new(genome_of_index_bits(), origin()),
    ];
    match spawn(&agents) {
        Event::Spawn(entries) => {
            assert_eq!(entries.len(), 2);
            assert_eq!(entries[0].0, agents[0].uuid);
            assert_eq!(entries[1].0, agents[1].uuid);
            for k in 0..NUM_CODONS {
                assert_eq!(entries[1].1[k].to_bits(), k as u32);
            }
        }
        _ => panic!("spawn must build a Spawn event"),
    }
}

#[test]
fn frame_event_lists_positions_in_order() {
    let agents = vec![
        Agent::new(zero_genome(), (scalar_of(1.0), scalar_of(-1.0))),
        Agent::new(zero_genome(), (scalar_of(2.0), scalar_of(-2.0))),
    ];
    match frame(&agents) {
        Event::Frame(positions) => {
            assert_eq!(positions.len(), 2);
            assert_eq!(positions[0].0.to_bits(), 1.0f32.to_bits());
            assert_eq!(positions[0].1.to_bits(), (-1.0f32).to_bits());
            assert_eq!(positions[1].0.to_bits(), 2.0f32.to_bits());
            assert_eq!(positions[1].1.to_bits(), (-2.0f32).to_bits());
        }
        _ => panic!("frame must build a Frame event"),
    }
}

#[test]
fn graph_structure_keeps_interior_connections() {
    let mut significant: Vec<Vec<bool>> = Vec::new();
    for _ in 0..NUM_NEURONS {
        significant.push(vec![false; NUM_NEURONS]);
    }
    significant[10][12] = true; // interior to interior: kept
    significant[12][10] = true; // interior to interior: kept
    significant[0][5] = true; // writes into an input slot: dropped
    significant[7][12] = true; // reads from an output slot: dropped
    significant[9][0] = true; // writes into an input slot: dropped
    let (edges, interior) = graph_structure(&significant);
    assert_eq!(edges, vec![(10, 12), (12, 10)]);
    assert_eq!(interior, vec![10, 12]);
}
