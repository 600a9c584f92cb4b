//! The append-only history log and its resume protocol.
//!
//! A log is line-oriented: a header line first, then, repeating, a
//! generation marker line — a `:` byte, the generation number in decimal,
//! a space, and the generation's settings — followed by one line per agent
//! that ran under those settings. The library owns the line framing
//! (`classify_line`) and the whole resume protocol (`revive_scan`); the
//! unverified shell reads the file and turns each line's payload into a
//! value, then hands the record sequence in.

use vstd::prelude::*;

use crate::genetics::{clone_genome, create_brain, genome_wf, Genome};
use crate::random::fresh_id;
use crate::scalar::Scalar;
use crate::{Agent, Settings};

verus! {

/// The first line of every log: identifies the run, and, if the run was
/// revived from another run's log, which one and at which generation.
#[derive(Debug)]
pub struct Header {
    /// This run's unique identity; also names the log file.
    pub id: u128,
    /// The run this one was revived from, if any.
    pub revived_from: Option<u128>,
    /// The generation the revival produced, if this run was revived.
    pub revived_generation: Option<usize>,
}

impl Header {
    /// A fresh header for a new run: random identity, no revival ancestry.
    pub fn new() -> (header: Header)
        ensures
            header.revived_from is None,
            header.revived_generation is None,
    {
        Header { id: fresh_id(), revived_from: None, revived_generation: None }
    }

    /// A header for a new log of the same lineage: fresh identity, the
    /// revival ancestry carried over unchanged.
    pub fn clone(&self) -> (header: Header)
        ensures
            header.revived_from == self.revived_from,
            header.revived_generation == self.revived_generation,
    {
        Header {
            id: fresh_id(),
            revived_from: self.revived_from,
            revived_generation: self.revived_generation,
        }
    }
}

/// One agent's record in the log: written once, never mutated after.
#[derive(Debug)]
pub struct AgentEntry {
    /// The agent's identity.
    pub id: u128,
    /// The identity of the agent's parent, or nothing for founders.
    pub parent: Option<u128>,
    /// Whether the agent satisfied the survival predicate.
    pub survived: bool,
    /// A snapshot of the agent's genome.
    pub genome: Genome,
}

impl Agent {
    /// This agent's log record, with the given fate.
    pub fn to_log_entry(&self, survived: bool) -> (entry: AgentEntry)
        ensures
            entry.id == self.uuid,
            entry.parent == self.parent,
            entry.survived == survived,
            entry.genome@ == self.genome@,
    {
        AgentEntry {
            id: self.uuid,
            parent: self.parent,
            survived,
            genome: clone_genome(&self.genome),
        }
    }

    /// Reconstructs a full agent from a retained log record: identity,
    /// parent and genome verbatim, the controller rehydrated from the
    /// stored genome, and the supplied fresh position (positions are never
    /// persisted at generation start).
    pub fn from_log_entry(entry: AgentEntry, position: (Scalar, Scalar)) -> (agent: Agent)
        requires
            genome_wf(entry.genome@),
        ensures
            agent.wf(),
            agent.uuid == entry.id,
            agent.parent == entry.parent,
            agent.genome@ == entry.genome@,
            agent.position == position,
    {
        let brain = create_brain(&entry.genome);
        Agent {
            uuid: entry.id,
            parent: entry.parent,
            position,
            genome: entry.genome,
            brain,
        }
    }
}

/// One parsed log line, as the unverified reader hands it in.
#[derive(Debug)]
pub enum LogRecord {
    /// The run header; only valid as the first line.
    Header(Header),
    /// A generation marker: the generation number and its settings.
    Marker {
        /// The generation number carried by the marker.
        generation: usize,
        /// The settings in force for that generation.
        settings: Settings,
    },
    /// One agent's record under the current marker.
    Entry(AgentEntry),
}

/// The shape of one raw log line.
#[derive(Debug)]
pub enum LineShape {
    /// A generation marker line: the parsed generation number and the
    /// bytes after the separating space (the settings payload).
    Marker {
        /// The generation number parsed from the digits after `:`.
        generation: usize,
        /// The bytes after the first space, to be decoded as settings.
        payload: Vec<u8>,
    },
    /// Any other line: a header or agent payload, decoded whole.
    Plain,
}

/// A line that cannot be read as what its first byte announces; fatal to
/// a resume attempt — there is no partial-trust parsing below line level.
#[derive(Debug, PartialEq, Eq, Structural)]
pub enum FrameError {
    /// A marker line without the space separating number from settings.
    MissingSeparator,
    /// The bytes between `:` and the space are not a decimal number that
    /// fits the generation counter.
    BadGenerationNumber,
}

/// Whether the line is a marker line: nonempty and opened by `:`.
pub open spec fn is_marker(s: Seq<u8>) -> bool {
    s.len() > 0 && s[0] == 58
}

/// `sep` is the first space of the line.
pub open spec fn marker_sep(s: Seq<u8>, sep: int) -> bool {
    &&& 0 <= sep < s.len()
    &&& s[sep] == 32
    &&& forall|j: int| 0 <= j < sep ==> s[j] != 32
}

/// Whether `b` is an ASCII decimal digit.
pub open spec fn is_ascii_digit(b: u8) -> bool {
    48 <= b <= 57
}

/// Whether every byte of `s` is an ASCII decimal digit.
pub open spec fn all_digits(s: Seq<u8>) -> bool {
    forall|i: int| 0 <= i < s.len() ==> is_ascii_digit(#[trigger] s[i])
}

/// The value of `s` read as a decimal number, most significant digit first.
pub open spec fn dec_value(s: Seq<u8>) -> int
    decreases s.len(),
{
    if s.len() == 0 {
        0
    } else {
        dec_value(s.drop_last()) * 10 + (s.last() - 48)
    }
}

/// The digits of a marker line with separator `sep` name a generation
/// number that fits the counter.
pub open spec fn marker_digits_ok(s: Seq<u8>, sep: int) -> bool {
    &&& sep > 1
    &&& all_digits(s.subrange(1, sep))
    &&& dec_value(s.subrange(1, sep)) <= usize::MAX
}

proof fn lemma_dec_value_nonneg(s: Seq<u8>)
    requires
        all_digits(s),
    ensures
        dec_value(s) >= 0,
    decreases s.len(),
{
    if s.len() > 0 {
        assert forall|j: int| 0 <= j < s.drop_last().len() implies is_ascii_digit(
            #[trigger] s.drop_last()[j],
        ) by {
            assert(s.drop_last()[j] == s[j]);
        }
        lemma_dec_value_nonneg(s.drop_last());
    }
}

/// Reading more digits never makes the value smaller.
proof fn lemma_dec_value_prefix(s: Seq<u8>, m: int)
    requires
        all_digits(s),
        0 <= m <= s.len(),
    ensures
        dec_value(s.take(m)) <= dec_value(s),
    decreases s.len() - m,
{
    if m == s.len() {
        assert(s.take(m) =~= s);
    } else {
        assert forall|j: int| 0 <= j < s.take(m).len() implies is_ascii_digit(
            #[trigger] s.take(m)[j],
        ) by {
            assert(s.take(m)[j] == s[j]);
        }
        lemma_dec_value_nonneg(s.take(m));
        assert(s.take(m + 1).drop_last() =~= s.take(m));
        assert(s.take(m + 1).last() == s[m]);
        lemma_dec_value_prefix(s, m + 1);
    }
}

proof fn lemma_marker_sep_unique(s: Seq<u8>, a: int, b: int)
    requires
        marker_sep(s, a),
        marker_sep(s, b),
    ensures
        a == b,
{
}

/// Classifies one raw log line. A line not opened by `:` is taken whole
/// (`Plain`); a marker line is split at its first space into the decimal
/// generation number and the settings payload. A marker line without a
/// space, or whose digits do not name a number that fits the generation
/// counter, is a framing error — fatal to the resume attempt, exactly as
/// a line the payload decoder rejects.
pub fn classify_line(line: &Vec<u8>) -> (r: Result<LineShape, FrameError>)
    ensures
        (r matches Ok(shape) && shape is Plain) <==> !is_marker(line@),
        (r == Err::<LineShape, FrameError>(FrameError::MissingSeparator)) <==> (is_marker(line@)
            && forall|j: int| 0 <= j < line@.len() ==> line@[j] != 32),
        (r == Err::<LineShape, FrameError>(FrameError::BadGenerationNumber)) <==> (is_marker(
            line@,
        ) && exists|sep: int| #[trigger] marker_sep(line@, sep) && !marker_digits_ok(line@, sep)),
        r matches Ok(shape) ==> shape matches LineShape::Marker { generation, payload }
            ==> exists|sep: int|
                {
                    &&& #[trigger] marker_sep(line@, sep)
                    &&& marker_digits_ok(line@, sep)
                    &&& generation == dec_value(line@.subrange(1, sep))
                    &&& payload@ == line@.subrange(sep + 1, line@.len() as int)
                },
{
    let n = line.len();
    if n == 0 || line[0] != 58 {
        return Ok(LineShape::Plain);
    }
    let mut i: usize = 0;
    while i < n && line[i] != 32
        invariant
            i <= n,
            n == line@.len(),
            forall|j: int| 0 <= j < i ==> line@[j] != 32,
        decreases n - i,
    {
        i = i + 1;
    }
    if i == n {
        return Err(FrameError::MissingSeparator);
    }
    proof {
        assert(marker_sep(line@, i as int));
        assert forall|sep: int| #[trigger] marker_sep(line@, sep) implies sep == i as int by {
            lemma_marker_sep_unique(line@, sep, i as int);
        }
    }
    if i <= 1 {
        proof {
            assert(!marker_digits_ok(line@, i as int));
        }
        return Err(FrameError::BadGenerationNumber);
    }
    let mut k: usize = 1;
    let mut value: usize = 0;
    while k < i
        invariant
            1 <= k <= i,
            i < n,
            n == line@.len(),
            is_marker(line@),
            line@[i as int] == 32,
            forall|j: int| 0 <= j < i ==> line@[j] != 32,
            all_digits(line@.subrange(1, k as int)),
            value as int == dec_value(line@.subrange(1, k as int)),
        decreases i - k,
    {
        let b = line[k];
        if b < 48 || b > 57 {
            proof {
                assert(marker_sep(line@, i as int));
                assert(line@.subrange(1, i as int)[k - 1] == line@[k as int]);
                assert(!all_digits(line@.subrange(1, i as int)));
                assert(!marker_digits_ok(line@, i as int));
            }
            return Err(FrameError::BadGenerationNumber);
        }
        let d = (b - 48) as usize;
        proof {
            assert(line@.subrange(1, k + 1 as int).drop_last() =~= line@.subrange(1, k as int));
            assert(line@.subrange(1, k + 1 as int).last() == line@[k as int]);
            assert forall|j: int| 0 <= j < line@.subrange(1, k + 1 as int).len() implies
                is_ascii_digit(#[trigger] line@.subrange(1, k + 1 as int)[j]) by {
                assert(line@.subrange(1, k + 1 as int)[j] == line@[j + 1]);
                if j < k - 1 {
                    assert(line@.subrange(1, k as int)[j] == line@[j + 1]);
                }
            }
        }
        let mut overflow = false;
        let mut next: usize = 0;
        match value.checked_mul(10) {
            Some(v0) => match v0.checked_add(d) {
                Some(v1) => {
                    next = v1;
                },
                None => {
                    overflow = true;
                },
            },
            None => {
                overflow = true;
            },
        }
        if overflow {
            proof {
                assert(marker_sep(line@, i as int));
                assert(value * 10 + d > usize::MAX);
                if marker_digits_ok(line@, i as int) {
                    let digits = line@.subrange(1, i as int);
                    assert(digits.take(k as int) =~= line@.subrange(1, k + 1 as int));
                    lemma_dec_value_prefix(digits, k as int);
                    assert(dec_value(line@.subrange(1, k + 1 as int)) > usize::MAX);
                }
                assert(!marker_digits_ok(line@, i as int));
            }
            return Err(FrameError::BadGenerationNumber);
        }
        value = next;
        k = k + 1;
    }
    let mut payload: Vec<u8> = Vec::new();
    let mut p: usize = i + 1;
    while p < n
        invariant
            i + 1 <= p <= n,
            n == line@.len(),
            payload@ == line@.subrange(i + 1 as int, p as int),
        decreases n - p,
    {
        payload.push(line[p]);
        proof {
            assert(line@.subrange(i + 1 as int, p + 1 as int) =~= line@.subrange(
                i + 1 as int,
                p as int,
            ).push(line@[p as int]));
        }
        p = p + 1;
    }
    proof {
        assert(payload@ =~= line@.subrange(i + 1 as int, line@.len() as int));
        assert(marker_digits_ok(line@, i as int));
    }
    Ok(LineShape::Marker { generation: value, payload })
}

/// Why a resume attempt failed; all of these are fatal — the log is the
/// sole durability mechanism and is not trusted below the line level.
#[derive(Debug, PartialEq, Eq, Structural)]
pub enum ReviveError {
    /// The log holds no lines at all.
    EmptyLog,
    /// The first record is not a run header.
    MissingHeader,
    /// A run header appeared after the first record.
    UnexpectedHeader,
    /// The log holds a header but no generation marker.
    NoGenerations,
    /// The only generation on record is incomplete and there is no earlier
    /// one to fall back to.
    NoCompleteGeneration,
}

/// What a successful resume hands back: the retained generation's agent
/// records and settings, its generation number, the synthesized header,
/// and the generations that were seen incomplete at a marker boundary
/// (observable, non-fatal).
#[derive(Debug)]
pub struct Revived {
    /// The retained generation's agent records, in log order.
    pub agents: Vec<AgentEntry>,
    /// The settings in force for the retained generation.
    pub settings: Settings,
    /// The retained generation's number.
    pub generation: usize,
    /// A fresh header referencing the scanned log's run as parent and
    /// carrying the retained generation number.
    pub header: Header,
    /// Generation numbers whose agent count did not match their settings
    /// when the next marker arrived.
    pub incomplete: Vec<usize>,
}

/// The state of the resume scan between two records.
pub ghost struct ScanSt {
    /// Settings of the generation being accumulated, once a marker was seen.
    pub cur_settings: Option<Settings>,
    /// Agent records accumulated for the current generation.
    pub cur_agents: Seq<AgentEntry>,
    /// Number of the current generation (zero before the first marker).
    pub cur_gen: usize,
    /// Settings of the fully-read previous generation, if any.
    pub prev_settings: Option<Settings>,
    /// Agent records of the previous generation.
    pub prev_agents: Seq<AgentEntry>,
    /// Number of the previous generation.
    pub prev_gen: usize,
    /// Generations flagged incomplete at a marker boundary.
    pub incomplete: Seq<usize>,
    /// Whether scanning has stopped (target generation passed, or `bad`).
    pub stopped: bool,
    /// Whether a header appeared after the first record.
    pub bad: bool,
}

/// The scan state before any record after the header is read.
pub open spec fn scan_init() -> ScanSt {
    ScanSt {
        cur_settings: None,
        cur_agents: Seq::empty(),
        cur_gen: 0,
        prev_settings: None,
        prev_agents: Seq::empty(),
        prev_gen: 0,
        incomplete: Seq::empty(),
        stopped: false,
        bad: false,
    }
}

/// One step of the resume scan. An agent record accumulates; a marker
/// first flags the closing generation if its count is off, then either
/// stops (the requested target generation lies before the marker's) or
/// retains the closing generation as previous and opens the new one; a
/// stray header poisons the scan.
pub open spec fn scan_step(st: ScanSt, rec: LogRecord, target: Option<usize>) -> ScanSt {
    if st.stopped {
        st
    } else {
        match rec {
            LogRecord::Header(_) => ScanSt { bad: true, stopped: true, ..st },
            LogRecord::Entry(entry) => ScanSt { cur_agents: st.cur_agents.push(entry), ..st },
            LogRecord::Marker { generation, settings } => {
                let flagged = if st.cur_settings matches Some(s) && st.cur_agents.len()
                    != s.num_agents {
                    st.incomplete.push(st.cur_gen)
                } else {
                    st.incomplete
                };
                if target matches Some(t) && t < generation {
                    ScanSt { incomplete: flagged, stopped: true, ..st }
                } else {
                    ScanSt {
                        cur_settings: Some(settings),
                        cur_agents: Seq::empty(),
                        cur_gen: generation,
                        prev_settings: st.cur_settings,
                        prev_agents: st.cur_agents,
                        prev_gen: st.cur_gen,
                        incomplete: flagged,
                        stopped: false,
                        bad: st.bad,
                    }
                }
            },
        }
    }
}

/// The resume scan folded over the records after the header.
pub open spec fn scan(records: Seq<LogRecord>, target: Option<usize>) -> ScanSt
    decreases records.len(),
{
    if records.len() == 0 {
        scan_init()
    } else {
        scan_step(scan(records.drop_last(), target), records.last(), target)
    }
}

/// What a successful resume result holds, relative to the retained
/// generation and the parent header.
pub open spec fn revived_matches(
    v: Revived,
    agents: Seq<AgentEntry>,
    settings: Settings,
    generation: usize,
    incomplete: Seq<usize>,
    parent: Header,
) -> bool {
    &&& v.agents@ == agents
    &&& v.settings == settings
    &&& v.generation == generation
    &&& v.incomplete@ == incomplete
    &&& v.header.revived_from == Some(parent.id)
    &&& v.header.revived_generation == Some(generation)
}

/// How a finished scan is resolved: a poisoned scan and a marker-less log
/// are fatal; a final generation with exactly its settings' agent count is
/// kept; otherwise the previous generation is fallen back to, and its
/// absence is fatal.
pub open spec fn scan_outcome(
    parent: Header,
    st: ScanSt,
    r: Result<Revived, ReviveError>,
) -> bool {
    if st.bad {
        r == Err::<Revived, ReviveError>(ReviveError::UnexpectedHeader)
    } else {
        match st.cur_settings {
            None => r == Err::<Revived, ReviveError>(ReviveError::NoGenerations),
            Some(settings) => {
                if st.cur_agents.len() == settings.num_agents {
                    r matches Ok(v) && revived_matches(
                        v,
                        st.cur_agents,
                        settings,
                        st.cur_gen,
                        st.incomplete,
                        parent,
                    )
                } else {
                    match st.prev_settings {
                        None => r == Err::<Revived, ReviveError>(
                            ReviveError::NoCompleteGeneration,
                        ),
                        Some(prev) => r matches Ok(v) && revived_matches(
                            v,
                            st.prev_agents,
                            prev,
                            st.prev_gen,
                            st.incomplete,
                            parent,
                        ),
                    }
                }
            },
        }
    }
}

/// The resume protocol, over the already-parsed record sequence. The
/// first record must be the run header; the rest are scanned by
/// [`scan_step`]: agent records accumulate under the current marker, each
/// marker closes the generation before it (flagging it if its agent count
/// is off, non-fatally), and scanning stops as soon as a marker's number
/// exceeds the requested target generation. At the end, the final
/// generation is kept only if complete; otherwise the last fully-read
/// generation is returned. The synthesized header references the scanned
/// log's run and the retained generation.
pub fn revive_scan(records: Vec<LogRecord>, target: Option<usize>) -> (r: Result<
    Revived,
    ReviveError,
>)
    ensures
        records@.len() == 0 ==> r == Err::<Revived, ReviveError>(ReviveError::EmptyLog),
        records@.len() > 0 ==> (records@[0] !is Header ==> r == Err::<Revived, ReviveError>(
            ReviveError::MissingHeader,
        )),
        records@.len() > 0 ==> (records@[0] matches LogRecord::Header(parent) ==> scan_outcome(
            parent,
            scan(records@.skip(1), target),
            r,
        )),
{
    let ghost all = records@;
    let mut records = records;
    if records.len() == 0 {
        return Err(ReviveError::EmptyLog);
    }
    let first = records.remove(0);
    let parent = match first {
        LogRecord::Header(header) => header,
        _ => {
            return Err(ReviveError::MissingHeader);
        },
    };
    proof {
        assert(records@ =~= all.skip(1));
    }
    let ghost tail = all.skip(1);
    let mut cur_settings: Option<Settings> = None;
    let mut cur_agents: Vec<AgentEntry> = Vec::new();
    let mut cur_gen: usize = 0;
    let mut prev_settings: Option<Settings> = None;
    let mut prev_agents: Vec<AgentEntry> = Vec::new();
    let mut prev_gen: usize = 0;
    let mut incomplete: Vec<usize> = Vec::new();
    let mut stopped = false;
    let mut bad = false;
    let ghost mut k: int = 0;
    while records.len() > 0
        invariant
            0 <= k <= tail.len(),
            records@ == tail.skip(k),
            ({
                let st = scan(tail.take(k), target);
                &&& cur_settings == st.cur_settings
                &&& cur_agents@ == st.cur_agents
                &&& cur_gen == st.cur_gen
                &&& prev_settings == st.prev_settings
                &&& prev_agents@ == st.prev_agents
                &&& prev_gen == st.prev_gen
                &&& incomplete@ == st.incomplete
                &&& stopped == st.stopped
                &&& bad == st.bad
            }),
        decreases records@.len(),
    {
        proof {
            assert(tail.skip(k)[0] == tail[k]);
        }
        let rec = records.remove(0);
        proof {
            assert(records@ =~= tail.skip(k + 1));
            assert(tail.take(k + 1).drop_last() =~= tail.take(k));
            assert(tail.take(k + 1).last() == tail[k]);
        }
        if stopped {
            // Past the stop point: records are dropped unread.
        } else {
            match rec {
                LogRecord::Header(_) => {
                    bad = true;
                    stopped = true;
                },
                LogRecord::Entry(entry) => {
                    cur_agents.push(entry);
                },
                LogRecord::Marker { generation, settings } => {
                    if let Some(s) = &cur_settings {
                        if cur_agents.len() != s.num_agents {
                            incomplete.push(cur_gen);
                        }
                    }
                    let mut stop_here = false;
                    if let Some(t) = target {
                        if t < generation {
                            stop_here = true;
                        }
                    }
                    if stop_here {
                        stopped = true;
                    } else {
                        prev_agents = cur_agents;
                        cur_agents = Vec::new();
                        prev_settings = cur_settings;
                        cur_settings = Some(settings);
                        prev_gen = cur_gen;
                        cur_gen = generation;
                    }
                },
            }
        }
        proof {
            k = k + 1;
        }
    }
    proof {
        assert(tail.take(k) =~= tail);
    }
    if bad {
        return Err(ReviveError::UnexpectedHeader);
    }
    let settings = match cur_settings {
        None => {
            return Err(ReviveError::NoGenerations);
        },
        Some(settings) => settings,
    };
    if cur_agents.len() == settings.num_agents {
        let header = Header {
            id: fresh_id(),
            revived_from: Some(parent.id),
            revived_generation: Some(cur_gen),
        };
        Ok(Revived { agents: cur_agents, settings, generation: cur_gen, header, incomplete })
    } else {
        match prev_settings {
            None => Err(ReviveError::NoCompleteGeneration),
            Some(prev) => {
                let header = Header {
                    id: fresh_id(),
                    revived_from: Some(parent.id),
                    revived_generation: Some(prev_gen),
                };
                Ok(
                    Revived {
                        agents: prev_agents,
                        settings: prev,
                        generation: prev_gen,
                        header,
                        incomplete,
                    },
                )
            },
        }
    }
}

} // verus!
