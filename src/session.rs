use vstd::prelude::*;
use crate::chunks::{aggregate_chunks, byte_len, byte_length, chunks_of, texts};
use crate::status::BuildStatus;
use crate::text::{chunk_summary, headline_of, lines_of, log_lines, trimmed_end};

verus! {

/// The fixed identity of the build that a run reports on.
#[derive(Clone, Debug)]
pub struct BuildIdentity {
    pub project_slug: String,
    pub project_name: Option<String>,
    pub repository_url: Option<String>,
    pub ci_provider: Option<String>,
    pub branch: Option<String>,
    pub commit_sha: Option<String>,
    pub logs_url: Option<String>,
    pub build_number: Option<i64>,
    pub external_id: Option<String>,
    pub build_id: Option<String>,
}

/// The kind of event that a report announces.
#[derive(Copy, Clone, Debug, PartialEq, Eq, Structural)]
pub enum ReportEvent {
    Started,
    LogChunk,
    Heartbeat,
    Stopped,
}

/// The free-form part of a report.
#[derive(Clone, Debug)]
pub struct ReportMetadata {
    pub event: ReportEvent,
    pub timestamp: String,
    pub chunk_index: Option<u64>,
    pub log_chunk: Option<String>,
    pub log_lines: Option<usize>,
    pub chunk_bytes: Option<usize>,
}

/// One report as it is sent to the endpoint.
#[derive(Clone, Debug)]
pub struct ReportPayload {
    pub identity: BuildIdentity,
    pub status: BuildStatus,
    pub external_id: String,
    pub message: Option<String>,
    pub metadata: ReportMetadata,
}

/// Metadata that names `event` and `chunk_index` and carries no chunk.
pub open spec fn event_only(m: ReportMetadata, event: ReportEvent, chunk_index: Option<u64>) -> bool {
    &&& m.event == event
    &&& m.chunk_index == chunk_index
    &&& m.log_chunk is None
    &&& m.log_lines is None
    &&& m.chunk_bytes is None
}

/// The decimal digits of a natural number.
pub open spec fn digits(n: nat) -> Seq<char>
    decreases n,
{
    let d = seq!['0', '1', '2', '3', '4', '5', '6', '7', '8', '9'][(n % 10) as int];
    if n < 10 {
        seq![d]
    } else {
        digits(n / 10).push(d)
    }
}

/// An integer written in decimal, with a minus sign when negative.
pub open spec fn decimal(n: int) -> Seq<char> {
    if n < 0 {
        seq!['-'] + digits((-n) as nat)
    } else {
        digits(n as nat)
    }
}

/// The identifier of a run that names none: the project slug, a dash and the
/// start time in seconds.
pub open spec fn fallback_id(slug: Seq<char>, seconds: i64) -> Seq<char> {
    slug + seq!['-'] + decimal(seconds as int)
}

/// The identifier that correlates every report of a run: the one given, else
/// the build's id, else the fallback made at `seconds`.
pub open spec fn run_id(identity: BuildIdentity, seconds: i64) -> Seq<char> {
    match identity.external_id {
        Some(id) => id@,
        None => match identity.build_id {
            Some(id) => id@,
            None => fallback_id(identity.project_slug@, seconds),
        },
    }
}

fn digit_text(d: u64) -> (r: &'static str)
    requires
        d < 10,
    ensures
        r@ == seq![seq!['0', '1', '2', '3', '4', '5', '6', '7', '8', '9'][d as int]],
{
    match d {
        0 => {
            proof {
                reveal_strlit("0");
            }
            "0"
        },
        1 => {
            proof {
                reveal_strlit("1");
            }
            "1"
        },
        2 => {
            proof {
                reveal_strlit("2");
            }
            "2"
        },
        3 => {
            proof {
                reveal_strlit("3");
            }
            "3"
        },
        4 => {
            proof {
                reveal_strlit("4");
            }
            "4"
        },
        5 => {
            proof {
                reveal_strlit("5");
            }
            "5"
        },
        6 => {
            proof {
                reveal_strlit("6");
            }
            "6"
        },
        7 => {
            proof {
                reveal_strlit("7");
            }
            "7"
        },
        8 => {
            proof {
                reveal_strlit("8");
            }
            "8"
        },
        _ => {
            proof {
                reveal_strlit("9");
            }
            "9"
        },
    }
}

fn digits_text(n: u64) -> (r: String)
    ensures
        r@ == digits(n as nat),
    decreases n,
{
    let d = digit_text(n % 10);
    if n < 10 {
        String::from_str(d)
    } else {
        let mut r = digits_text(n / 10);
        r.append(d);
        assert(r@ =~= digits((n / 10) as nat).push(d@[0]));
        r
    }
}

/// An integer in decimal, as `i64`'s `Display` writes it.
pub fn decimal_text(n: i64) -> (r: String)
    ensures
        r@ == decimal(n as int),
{
    if n < 0 {
        let magnitude = (-(n as i128)) as u64;
        let mut r = String::from_str("-");
        proof {
            reveal_strlit("-");
        }
        let d = digits_text(magnitude);
        r.append(d.as_str());
        r
    } else {
        digits_text(n as u64)
    }
}

/// Relies on `DateTime::<Utc>::from(SystemTime)` and `DateTime::timestamp`: the
/// current time in whole seconds since the Unix epoch (negative before it).
#[verifier::external_body]
fn now_unix_seconds() -> (r: i64) {
    chrono::DateTime::<chrono::Utc>::from(std::time::SystemTime::now()).timestamp()
}

/// Relies on `DateTime::<Utc>::from(SystemTime)` and `DateTime::to_rfc3339_opts`:
/// the current time as RFC 3339 text in UTC.
#[verifier::external_body]
fn now_timestamp() -> (r: String) {
    chrono::DateTime::<chrono::Utc>::from(std::time::SystemTime::now()).to_rfc3339_opts(
        chrono::SecondsFormat::AutoSi,
        true,
    )
}

/// The run identifier for `identity` when the run started at `seconds`.
pub fn external_id_at(identity: &BuildIdentity, seconds: i64) -> (r: String)
    ensures
        r@ == run_id(*identity, seconds),
{
    match &identity.external_id {
        Some(id) => id.clone(),
        None => match &identity.build_id {
            Some(id) => id.clone(),
            None => {
                let mut r = identity.project_slug.clone();
                proof {
                    reveal_strlit("-");
                }
                r.append("-");
                let n = decimal_text(seconds);
                r.append(n.as_str());
                r
            },
        },
    }
}

/// The run identifier, made once when the run starts.
pub fn coalesce_external_id(identity: &BuildIdentity) -> (r: String)
    ensures
        exists|seconds: i64| r@ == run_id(*identity, seconds),
{
    let seconds = now_unix_seconds();
    external_id_at(identity, seconds)
}

fn copy_text(o: &Option<String>) -> (r: Option<String>)
    ensures
        r == *o,
{
    match o {
        Some(s) => Some(s.clone()),
        None => None,
    }
}

fn copy_identity(identity: &BuildIdentity) -> (r: BuildIdentity)
    ensures
        r == *identity,
{
    BuildIdentity {
        project_slug: identity.project_slug.clone(),
        project_name: copy_text(&identity.project_name),
        repository_url: copy_text(&identity.repository_url),
        ci_provider: copy_text(&identity.ci_provider),
        branch: copy_text(&identity.branch),
        commit_sha: copy_text(&identity.commit_sha),
        logs_url: copy_text(&identity.logs_url),
        build_number: identity.build_number,
        external_id: copy_text(&identity.external_id),
        build_id: copy_text(&identity.build_id),
    }
}

fn text_of(s: &str) -> (r: String)
    ensures
        r@ == s@,
{
    String::from_str(s)
}

/// The reporting side of one run: the build's identity and the identifier
/// fixed when the run started.
pub struct Session {
    identity: BuildIdentity,
    external_id: String,
}

impl Session {
    pub closed spec fn identity(self) -> BuildIdentity {
        self.identity
    }

    /// The identifier that every report of this run carries.
    pub closed spec fn run_id(self) -> Seq<char> {
        self.external_id@
    }

    /// A payload of this run, with the run's identity and identifier.
    pub open spec fn of_run(self, p: ReportPayload) -> bool {
        p.identity == self.identity() && p.external_id@ == self.run_id()
    }

    /// A session whose identifier is made from the start time `seconds`.
    pub fn started_at(identity: BuildIdentity, seconds: i64) -> (r: Session)
        ensures
            r.identity() == identity,
            r.run_id() == run_id(identity, seconds),
    {
        let external_id = external_id_at(&identity, seconds);
        Session { identity, external_id }
    }

    /// A session that starts now.
    pub fn start(identity: BuildIdentity) -> (r: Session)
        ensures
            r.identity() == identity,
            exists|seconds: i64| r.run_id() == run_id(identity, seconds),
    {
        let external_id = coalesce_external_id(&identity);
        Session { identity, external_id }
    }

    pub fn external_id(&self) -> (r: String)
        ensures
            r@ == self.run_id(),
    {
        self.external_id.clone()
    }

    /// A payload of this run with the given status, message and metadata.
    pub fn payload(&self, status: BuildStatus, message: Option<String>, metadata: ReportMetadata) -> (r:
        ReportPayload)
        ensures
            self.of_run(r),
            r.status == status,
            r.message == message,
            r.metadata == metadata,
    {
        ReportPayload {
            identity: copy_identity(&self.identity),
            status,
            external_id: self.external_id.clone(),
            message,
            metadata,
        }
    }

    /// The report that announces the start of streaming, made at `timestamp`.
    pub fn started_report_at(&self, initial_status: BuildStatus, timestamp: String) -> (r:
        ReportPayload)
        ensures
            self.of_run(r),
            r.status == initial_status,
            r.message matches Some(m) && m@ == "Build watcher initialized"@,
            r.metadata == (ReportMetadata {
                event: ReportEvent::Started,
                timestamp,
                chunk_index: None,
                log_chunk: None,
                log_lines: None,
                chunk_bytes: None,
            }),
    {
        let metadata = ReportMetadata {
            event: ReportEvent::Started,
            timestamp,
            chunk_index: None,
            log_chunk: None,
            log_lines: None,
            chunk_bytes: None,
        };
        self.payload(initial_status, Some(text_of("Build watcher initialized")), metadata)
    }

    /// The report that announces the start of streaming, made now.
    pub fn started_report(&self, initial_status: BuildStatus) -> (r: ReportPayload)
        ensures
            self.of_run(r),
            r.status == initial_status,
            r.message matches Some(m) && m@ == "Build watcher initialized"@,
            event_only(r.metadata, ReportEvent::Started, None),
    {
        self.started_report_at(initial_status, now_timestamp())
    }

    /// The idle report, made at `timestamp`.
    pub fn heartbeat_report_at(&self, timestamp: String) -> (r: ReportPayload)
        ensures
            self.of_run(r),
            r.status == BuildStatus::Running,
            r.message matches Some(m) && m@ == "Heartbeat"@,
            r.metadata == (ReportMetadata {
                event: ReportEvent::Heartbeat,
                timestamp,
                chunk_index: None,
                log_chunk: None,
                log_lines: None,
                chunk_bytes: None,
            }),
    {
        let metadata = ReportMetadata {
            event: ReportEvent::Heartbeat,
            timestamp,
            chunk_index: None,
            log_chunk: None,
            log_lines: None,
            chunk_bytes: None,
        };
        self.payload(BuildStatus::Running, Some(text_of("Heartbeat")), metadata)
    }

    /// The idle report, made now.
    pub fn heartbeat_report(&self) -> (r: ReportPayload)
        ensures
            self.of_run(r),
            r.status == BuildStatus::Running,
            r.message matches Some(m) && m@ == "Heartbeat"@,
            event_only(r.metadata, ReportEvent::Heartbeat, None),
    {
        self.heartbeat_report_at(now_timestamp())
    }

    /// The last report of a graceful run, made at `timestamp`: the configured
    /// final status, else cancelled, with the index of the last chunk sent.
    pub fn stop_report_at(&self, final_status: Option<BuildStatus>, chunk_index: u64, timestamp: String) -> (r:
        ReportPayload)
        ensures
            self.of_run(r),
            r.status == stop_status(final_status),
            r.message matches Some(m) && m@ == "Build watcher stopped"@,
            r.metadata == (ReportMetadata {
                event: ReportEvent::Stopped,
                timestamp,
                chunk_index: Some(chunk_index),
                log_chunk: None,
                log_lines: None,
                chunk_bytes: None,
            }),
    {
        let metadata = ReportMetadata {
            event: ReportEvent::Stopped,
            timestamp,
            chunk_index: Some(chunk_index),
            log_chunk: None,
            log_lines: None,
            chunk_bytes: None,
        };
        self.payload(final_status_of(final_status), Some(text_of("Build watcher stopped")), metadata)
    }

    /// The last report of a graceful run, made now.
    pub fn stop_report(&self, final_status: Option<BuildStatus>, chunk_index: u64) -> (r:
        ReportPayload)
        ensures
            self.of_run(r),
            r.status == stop_status(final_status),
            r.message matches Some(m) && m@ == "Build watcher stopped"@,
            event_only(r.metadata, ReportEvent::Stopped, Some(chunk_index)),
    {
        self.stop_report_at(final_status, chunk_index, now_timestamp())
    }
}

/// The chunk index after `n` more chunks, counted from `start` (it stops at
/// the largest value).
pub open spec fn index_after(start: u64, n: nat) -> u64 {
    if start + n > u64::MAX {
        u64::MAX
    } else {
        (start + n) as u64
    }
}

impl Session {
    /// `p` is this run's report of chunk `chunk`, numbered `index`.
    pub open spec fn is_chunk_report(self, p: ReportPayload, chunk: Seq<char>, index: u64) -> bool {
        &&& self.of_run(p)
        &&& p.status == BuildStatus::Running
        &&& p.message matches Some(m) && m@ == headline_of(lines_of(chunk))
        &&& p.metadata.event == ReportEvent::LogChunk
        &&& p.metadata.chunk_index == Some(index)
        &&& p.metadata.log_chunk matches Some(c) && c@ == chunk
        &&& p.metadata.log_lines == Some(lines_of(chunk).len() as usize)
        &&& p.metadata.chunk_bytes == Some(byte_len(chunk) as usize)
    }

    /// The report of `chunk`, numbered `index`, made at `timestamp`.
    pub fn chunk_report_at(&self, chunk: String, index: u64, timestamp: String) -> (r: ReportPayload)
        ensures
            self.is_chunk_report(r, chunk@, index),
            r.metadata.timestamp == timestamp,
    {
        let (headline, line_count) = chunk_summary(chunk.as_str());
        let bytes = byte_length(chunk.as_str());
        let metadata = ReportMetadata {
            event: ReportEvent::LogChunk,
            timestamp,
            chunk_index: Some(index),
            log_chunk: Some(chunk),
            log_lines: Some(line_count),
            chunk_bytes: Some(bytes),
        };
        self.payload(BuildStatus::Running, Some(headline), metadata)
    }

    /// The report of the next chunk sent: the chunk index moves on by one, and
    /// the report carries the new index and the current time.
    pub fn next_chunk_report(&self, chunk: String, chunk_index: &mut u64) -> (r: ReportPayload)
        ensures
            *final(chunk_index) == index_after(*old(chunk_index), 1),
            self.is_chunk_report(r, chunk@, *final(chunk_index)),
    {
        if *chunk_index < u64::MAX {
            *chunk_index = *chunk_index + 1;
        }
        self.chunk_report_at(chunk, *chunk_index, now_timestamp())
    }
}

/// The chunks of freshly read log text, in order: its lines, without trailing
/// whitespace, packed into chunks of at most `max_chunk_bytes` bytes.
pub fn forward_raw_logs(raw: &str, max_chunk_bytes: usize) -> (r: Vec<String>)
    ensures
        texts(r@) == chunks_of(
            lines_of(raw@).map_values(|l: Seq<char>| trimmed_end(l)),
            max_chunk_bytes as nat,
        ),
{
    let lines = log_lines(raw);
    aggregate_chunks(&lines, max_chunk_bytes)
}

/// The status of the stop report: the configured one, else cancelled.
pub open spec fn stop_status(configured: Option<BuildStatus>) -> BuildStatus {
    match configured {
        Some(s) => s,
        None => BuildStatus::Cancelled,
    }
}

pub fn final_status_of(configured: Option<BuildStatus>) -> (r: BuildStatus)
    ensures
        r == stop_status(configured),
{
    match configured {
        Some(s) => s,
        None => BuildStatus::Cancelled,
    }
}

/// Every report built by one session carries the same run identifier.
pub proof fn lemma_run_id_stable(s: Session, a: ReportPayload, b: ReportPayload)
    requires
        s.of_run(a),
        s.of_run(b),
    ensures
        a.external_id@ == b.external_id@,
{
}

} // verus!
