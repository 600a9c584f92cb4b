use evosim::genetics::Genome;
use evosim::history::{
    classify_line, revive_scan, AgentEntry, FrameError, Header, LineShape, LogRecord, ReviveError,
};
use evosim::scalar::Scalar;
use evosim::{Settings, SimulationMode};

fn scalar_of(x: f32) -> Scalar {
    Scalar::from_bits(x.to_bits())
}

fn settings_for(num_agents: usize, generation_tag: u32) -> Settings {
    Settings {
        world_radius: scalar_of(500.0),
        title: String::new(),
        zone: None,
        mutation_rate: Scalar::from_bits(generation_tag),
        mutation_strength: scalar_of(0.25),
        num_agents,
        time_step: scalar_of(0.05),
        frame_interval: 5,
        mode: SimulationMode::SafeZoneRace {
            radius_low: scalar_of(50.0),
            radius_high: scalar_of(100.0),
        },
        generation_time: scalar_of(50.0),
    }
}

fn short_genome(tag: u32) -> Genome {
    vec![Scalar::from_bits(tag)]
}

fn entry(id: u128) -> AgentEntry {
    AgentEntry {
        id,
        parent: None,
        survived: true,
        genome: short_genome(id as u32),
    }
}

fn parent_header(id: u128) -> LogRecord {
    LogRecord::Header(Header {
        id,
        revived_from: None,
        revived_generation: None,
    })
}

/// A log with generations 1..=3 complete (ten entries each) and a fourth
/// generation cut off after four entries. Agent ids encode generation and
/// slot, so the returned set can be checked exactly.
fn truncated_log(num_agents: usize) -> Vec<LogRecord> {
    let mut records = vec![parent_header(77)];
    for generation in 1..=3u128 {
        records.push(LogRecord::Marker {
            generation: generation as usize,
            settings: settings_for(num_agents, generation as u32),
        });
        for slot in 0..num_agents as u128 {
            records.push(LogRecord::Entry(entry(generation * 100 + slot)));
        }
    }
    records.push(LogRecord::Marker {
        generation: 4,
        settings: settings_for(num_agents, 4),
    });
    for slot in 0..4u128 {
        records.push(LogRecord::Entry(entry(400 + slot)));
    }
    records
}

#[test]
fn revive_falls_back_to_last_complete_generation() {
    // Generations 1..=3 hold ten entries each; generation 4 breaks off at
    // four. Without a target, the scan must discard the incomplete final
    // generation and return generation 3.
    let revived = revive_scan(truncated_log(10), None).unwrap();
    assert_eq!(revived.generation, 3);
    assert_eq!(revived.agents.len(), 10);
    for (slot, agent) in revived.agents.iter().enumerate() {
        assert_eq!(agent.id, 300 + slot as u128);
    }
    assert_eq!(revived.settings.mutation_rate.to_bits(), 3);
    assert_eq!(revived.header.revived_from, Some(77));
    assert_eq!(revived.header.revived_generation, Some(3));
    assert!(revived.incomplete.is_empty());
}

#[test]
fn revive_stops_scanning_at_target_generation() {
    // With a target of 2, scanning must stop at the generation-3 marker
    // and return generation 2's complete agent set and settings.
    let revived = revive_scan(truncated_log(10), Some(2)).unwrap();
    assert_eq!(revived.generation, 2);
    assert_eq!(revived.agents.len(), 10);
    for (slot, agent) in revived.agents.iter().enumerate() {
        assert_eq!(agent.id, 200 + slot as u128);
    }
    assert_eq!(revived.settings.mutation_rate.to_bits(), 2);
    assert_eq!(revived.header.revived_from, Some(77));
    assert_eq!(revived.header.revived_generation, Some(2));
}

#[test]
fn revive_rejects_an_empty_log() {
    let r = revive_scan(Vec::new(), None);
    assert!(matches!(r, Err(ReviveError::EmptyLog)));
}

#[test]
fn revive_rejects_a_log_without_leading_header() {
    let records = vec![LogRecord::Entry(entry(1))];
    let r = revive_scan(records, None);
    assert!(matches!(r, Err(ReviveError::MissingHeader)));
}

#[test]
fn revive_rejects_a_log_without_generations() {
    let records = vec![parent_header(5)];
    let r = revive_scan(records, None);
    assert!(matches!(r, Err(ReviveError::NoGenerations)));
}

#[test]
fn revive_rejects_a_stray_header() {
    let records = vec![
        parent_header(5),
        LogRecord::Marker {
            generation: 1,
            settings: settings_for(2, 1),
        },
        parent_header(6),
    ];
    let r = revive_scan(records, None);
    assert!(matches!(r, Err(ReviveError::UnexpectedHeader)));
}

#[test]
fn revive_without_any_complete_generation_fails() {
    let records = vec![
        parent_header(5),
        LogRecord::Marker {
            generation: 1,
            settings: settings_for(10, 1),
        },
        LogRecord::Entry(entry(101)),
        LogRecord::Entry(entry(102)),
    ];
    let r = revive_scan(records, None);
    assert!(matches!(r, Err(ReviveError::NoCompleteGeneration)));
}

#[test]
fn revive_flags_incomplete_generations_mid_log() {
    // Generation 1 holds nine of ten entries; generation 2 is complete.
    let mut records = vec![
        parent_header(9),
        LogRecord::Marker {
            generation: 1,
            settings: settings_for(10, 1),
        },
    ];
    for slot in 0..9u128 {
        records.push(LogRecord::Entry(entry(100 + slot)));
    }
    records.push(LogRecord::Marker {
        generation: 2,
        settings: settings_for(10, 2),
    });
    for slot in 0..10u128 {
        records.push(LogRecord::Entry(entry(200 + slot)));
    }
    let revived = revive_scan(records, None).unwrap();
    assert_eq!(revived.generation, 2);
    assert_eq!(revived.incomplete, vec![1]);
}

#[test]
fn classify_takes_ordinary_lines_whole() {
    let line: Vec<u8> = b"{\"id\":1}".to_vec();
    assert!(matches!(classify_line(&line), Ok(LineShape::Plain)));
    let empty: Vec<u8> = Vec::new();
    assert!(matches!(classify_line(&empty), Ok(LineShape::Plain)));
}

#[test]
fn classify_splits_marker_lines() {
    let line: Vec<u8> = b":12 {\"num_agents\":10}".to_vec();
    match classify_line(&line).unwrap() {
        LineShape::Marker {
            generation,
            payload,
        } => {
            assert_eq!(generation, 12);
            assert_eq!(payload, b"{\"num_agents\":10}".to_vec());
        }
        LineShape::Plain => panic!("a marker line must split"),
    }
}

#[test]
fn classify_accepts_generation_zero_and_empty_payload() {
    let line: Vec<u8> = b":0 ".to_vec();
    match classify_line(&line).unwrap() {
        LineShape::Marker {
            generation,
            payload,
        } => {
            assert_eq!(generation, 0);
            assert!(payload.is_empty());
        }
        LineShape::Plain => panic!("a marker line must split"),
    }
}

#[test]
fn classify_rejects_marker_without_separator() {
    let line: Vec<u8> = b":12".to_vec();
    assert_eq!(
        classify_line(&line).unwrap_err(),
        FrameError::MissingSeparator
    );
}

#[test]
fn classify_rejects_non_decimal_generation() {
    let line: Vec<u8> = b":1a {}".to_vec();
    assert_eq!(
        classify_line(&line).unwrap_err(),
        FrameError::BadGenerationNumber
    );
    let empty_digits: Vec<u8> = b": {}".to_vec();
    assert_eq!(
        classify_line(&empty_digits).unwrap_err(),
        FrameError::BadGenerationNumber
    );
}

#[test]
fn classify_rejects_generation_overflow() {
    let line: Vec<u8> = b":99999999999999999999999999 {}".to_vec();
    assert_eq!(
        classify_line(&line).unwrap_err(),
        FrameError::BadGenerationNumber
    );
}

#[test]
fn header_new_has_no_ancestry() {
    let header = Header::new();
    assert!(header.revived_from.is_none());
    assert!(header.revived_generation.is_none());
}

#[test]
fn header_clone_keeps_ancestry() {
    let header = Header {
        id: 1,
        revived_from: Some(42),
        revived_generation: Some(7),
    };
    let renewed = header.clone();
    assert_eq!(renewed.revived_from, Some(42));
    assert_eq!(renewed.revived_generation, Some(7));
}

#[test]
fn log_entry_round_trip_preserves_identity_and_genome() {
    let genome = evosim::genetics::zero_genome();
    let agent = evosim::Agent::new(genome, (Scalar::zero(), Scalar::zero()));
    let parent_id = agent.uuid;
    let child_genome = evosim::genetics::zero_genome();
    let child = agent.procreate(child_genome, (Scalar::zero(), Scalar::zero()));
    let entry = child.to_log_entry(true);
    assert_eq!(entry.id, child.uuid);
    assert_eq!(entry.parent, Some(parent_id));
    assert!(entry.survived);
    let rebuilt = evosim::Agent::from_log_entry(entry, (scalar_of(8.0), scalar_of(9.0)));
    assert_eq!(rebuilt.uuid, child.uuid);
    assert_eq!(rebuilt.parent, Some(parent_id));
    assert_eq!(rebuilt.genome.len(), child.genome.len());
    for (a, b) in rebuilt.genome.iter().zip(child.genome.iter()) {
        assert_eq!(a.to_bits(), b.to_bits());
    }
    assert_eq!(rebuilt.position.0.to_bits(), 8.0f32.to_bits());
}
