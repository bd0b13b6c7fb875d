//! The per-file conversion job, modeled as a state machine: the library
//! decides, the caller performs. Each phase names the one piece of outside
//! work to do next (read, check the destination, decode, encode, write); the
//! caller reports how it went and receives the next command. Every failure
//! short-circuits the rest of the job into a single failure outcome carrying
//! the source's description; it never touches sibling jobs.

use vstd::prelude::*;
use vstd::string::StringExecFns;
use vstd::arithmetic::div_mod::lemma_fundamental_div_mod;
use vstd::arithmetic::div_mod::lemma_fundamental_div_mod_converse;
use crate::endpoints::Endpoint;
use crate::endpoints::InputSource;
use crate::endpoints::OutputTarget;
use crate::endpoints::description_of;
use crate::text::dec_rep;
use crate::text::decimal_string;

verus! {

/// Size breakdown of one encoded image, as the encoder collaborator reports
/// it: the whole file, and the bytes of the two pixel planes within it.
#[derive(Clone, Copy, PartialEq, Eq, Structural, Debug)]
pub struct EncodeStats {
    pub total_bytes: usize,
    pub color_bytes: usize,
    pub alpha_bytes: usize,
}

impl EncodeStats {
    /// The two planes fit inside the file; the rest is container overhead.
    pub open spec fn wf(self) -> bool {
        self.color_bytes + self.alpha_bytes <= self.total_bytes
    }
}

/// Model of a per-job error, carrying the full message text.
pub enum JobErrorModel {
    InputRead(Seq<char>),
    Decode(Seq<char>),
    DestinationExists(Seq<char>),
    Encode(Seq<char>),
    OutputWrite(Seq<char>),
}

/// A per-job error: which step failed, with the message to report. Per-job
/// errors are deferred to the aggregator and never abort the batch.
pub enum JobError {
    /// The source's bytes could not be read.
    InputRead(String),
    /// The decoder collaborator rejected the data.
    Decode(String),
    /// The destination already exists and overwriting is off: a policy skip.
    DestinationExists(String),
    /// The encoder collaborator failed.
    Encode(String),
    /// The encoded bytes could not be written out.
    OutputWrite(String),
}

impl View for JobError {
    type V = JobErrorModel;

    open spec fn view(&self) -> JobErrorModel {
        match self {
            JobError::InputRead(m) => JobErrorModel::InputRead(m@),
            JobError::Decode(m) => JobErrorModel::Decode(m@),
            JobError::DestinationExists(m) => JobErrorModel::DestinationExists(m@),
            JobError::Encode(m) => JobErrorModel::Encode(m@),
            JobError::OutputWrite(m) => JobErrorModel::OutputWrite(m@),
        }
    }
}

/// The message text of a per-job error.
pub open spec fn error_text(e: JobErrorModel) -> Seq<char> {
    match e {
        JobErrorModel::InputRead(m) => m,
        JobErrorModel::Decode(m) => m,
        JobErrorModel::DestinationExists(m) => m,
        JobErrorModel::Encode(m) => m,
        JobErrorModel::OutputWrite(m) => m,
    }
}

impl JobError {
    /// The error's message text.
    pub fn detail(&self) -> (r: &String)
        ensures
            r@ == error_text(self@),
    {
        match self {
            JobError::InputRead(m) => m,
            JobError::Decode(m) => m,
            JobError::DestinationExists(m) => m,
            JobError::Encode(m) => m,
            JobError::OutputWrite(m) => m,
        }
    }
}

/// The full read-failure message: a file source names its path, a standard
/// input source passes the underlying message through.
pub open spec fn read_error_text(source: Endpoint, detail: Seq<char>) -> Seq<char> {
    match source {
        Endpoint::File(p) => "Unable to read input image "@ + p + ": "@ + detail,
        Endpoint::Stdio => detail,
    }
}

/// The destination-exists message for a path.
pub open spec fn dest_exists_text(p: Seq<char>) -> Seq<char> {
    p + " already exists; skipping"@
}

/// The write-failure message.
pub open spec fn write_error_text(detail: Seq<char>) -> Seq<char> {
    "Unable to write output image: "@ + detail
}

/// Model of one job's outcome.
pub enum OutcomeModel {
    Success { target: Endpoint, stats: EncodeStats },
    Failure { description: Seq<char>, error: JobErrorModel },
}

/// One job's result: a success with its destination and size breakdown, or
/// a failure tagged with the source's description.
pub enum ConversionOutcome {
    Success { target: OutputTarget, stats: EncodeStats },
    Failure { description: String, error: JobError },
}

impl View for ConversionOutcome {
    type V = OutcomeModel;

    open spec fn view(&self) -> OutcomeModel {
        match self {
            ConversionOutcome::Success { target, stats } => (OutcomeModel::Success {
                target: target@,
                stats: *stats,
            }),
            ConversionOutcome::Failure { description, error } => (OutcomeModel::Failure {
                description: description@,
                error: error@,
            }),
        }
    }
}

/// A success reports a coherent size breakdown.
pub open spec fn outcome_wf(o: OutcomeModel) -> bool {
    o matches OutcomeModel::Success { stats, .. } ==> stats.wf()
}

/// The reported text of a failure: the source's description prefixed onto
/// the error message.
pub open spec fn failure_line(description: Seq<char>, e: JobErrorModel) -> Seq<char> {
    description + ": error: "@ + error_text(e)
}

/// Model of a job's phase: which piece of outside work it awaits, or its
/// final outcome.
pub enum PhaseModel {
    AwaitingRead,
    AwaitingDestCheck,
    AwaitingDecode,
    AwaitingEncode,
    AwaitingWrite(EncodeStats),
    Done(OutcomeModel),
}

/// A job's phase.
pub enum JobPhase {
    AwaitingRead,
    AwaitingDestCheck,
    AwaitingDecode,
    AwaitingEncode,
    AwaitingWrite(EncodeStats),
    Done(ConversionOutcome),
}

impl View for JobPhase {
    type V = PhaseModel;

    open spec fn view(&self) -> PhaseModel {
        match self {
            JobPhase::AwaitingRead => PhaseModel::AwaitingRead,
            JobPhase::AwaitingDestCheck => PhaseModel::AwaitingDestCheck,
            JobPhase::AwaitingDecode => PhaseModel::AwaitingDecode,
            JobPhase::AwaitingEncode => PhaseModel::AwaitingEncode,
            JobPhase::AwaitingWrite(s) => PhaseModel::AwaitingWrite(*s),
            JobPhase::Done(o) => PhaseModel::Done(o@),
        }
    }
}

/// What the caller reports back after performing the awaited work. An error
/// payload is the underlying message (an I/O or collaborator error).
pub enum JobEvent {
    ReadFinished(Result<(), String>),
    DestinationChecked(bool),
    DecodeFinished(Result<(), String>),
    EncodeFinished(Result<EncodeStats, String>),
    WriteFinished(Result<(), String>),
}

/// Model of a reported event.
pub enum EventModel {
    ReadFinished(Result<(), Seq<char>>),
    DestinationChecked(bool),
    DecodeFinished(Result<(), Seq<char>>),
    EncodeFinished(Result<EncodeStats, Seq<char>>),
    WriteFinished(Result<(), Seq<char>>),
}

impl View for JobEvent {
    type V = EventModel;

    open spec fn view(&self) -> EventModel {
        match self {
            JobEvent::ReadFinished(r) => EventModel::ReadFinished(
                match r {
                    Ok(u) => Ok(*u),
                    Err(m) => Err(m@),
                },
            ),
            JobEvent::DestinationChecked(b) => EventModel::DestinationChecked(*b),
            JobEvent::DecodeFinished(r) => EventModel::DecodeFinished(
                match r {
                    Ok(u) => Ok(*u),
                    Err(m) => Err(m@),
                },
            ),
            JobEvent::EncodeFinished(r) => EventModel::EncodeFinished(
                match r {
                    Ok(s) => Ok(*s),
                    Err(m) => Err(m@),
                },
            ),
            JobEvent::WriteFinished(r) => EventModel::WriteFinished(
                match r {
                    Ok(u) => Ok(*u),
                    Err(m) => Err(m@),
                },
            ),
        }
    }
}

/// The next piece of outside work the caller must perform, or `Finish` when
/// the job's outcome is settled.
#[derive(Clone, Copy, PartialEq, Eq, Structural, Debug)]
pub enum JobCommand {
    ReadSource,
    CheckDestination,
    DecodePixels,
    EncodePixels,
    WriteOutput,
    Finish,
}

/// Model of a job.
pub struct JobModel {
    pub source: Endpoint,
    pub dest: Endpoint,
    pub overwrite: bool,
    pub phase: PhaseModel,
}

/// One conversion job: its source, its resolved destination, the overwrite
/// policy, and the phase it is in.
pub struct Job {
    pub source: InputSource,
    pub dest: OutputTarget,
    pub overwrite: bool,
    pub phase: JobPhase,
}

impl View for Job {
    type V = JobModel;

    open spec fn view(&self) -> JobModel {
        JobModel {
            source: self.source@,
            dest: self.dest@,
            overwrite: self.overwrite,
            phase: self.phase@,
        }
    }
}

/// Whether an event answers what the job's phase awaits. A destination check
/// only ever concerns a file destination, and encoder statistics must be
/// coherent.
pub open spec fn event_enabled(j: JobModel, e: EventModel) -> bool {
    match (j.phase, e) {
        (PhaseModel::AwaitingRead, EventModel::ReadFinished(_)) => true,
        (PhaseModel::AwaitingDestCheck, EventModel::DestinationChecked(_)) => j.dest matches
            Endpoint::File(_),
        (PhaseModel::AwaitingDecode, EventModel::DecodeFinished(_)) => true,
        (PhaseModel::AwaitingEncode, EventModel::EncodeFinished(r)) => r matches Ok(s) ==> s.wf(),
        (PhaseModel::AwaitingWrite(_), EventModel::WriteFinished(_)) => true,
        _ => false,
    }
}

/// A job that ends in the given error.
pub open spec fn failed_job(j: JobModel, e: JobErrorModel) -> JobModel {
    JobModel {
        phase: PhaseModel::Done(
            OutcomeModel::Failure { description: description_of(j.source), error: e },
        ),
        ..j
    }
}

/// The job transition: from a phase and the reported event to the next
/// phase and the next command. A successful read goes on to the destination
/// check for a file destination and straight to decoding otherwise; an
/// existing destination without the overwrite flag ends the job as a policy
/// skip before any decode or encode is commanded; a successful write settles
/// the success outcome; every error settles a failure outcome.
pub open spec fn job_step(j: JobModel, e: EventModel) -> (JobModel, JobCommand) {
    match (j.phase, e) {
        (PhaseModel::AwaitingRead, EventModel::ReadFinished(r)) => match r {
            Ok(_) => match j.dest {
                Endpoint::File(_) => (
                    (JobModel { phase: PhaseModel::AwaitingDestCheck, ..j }),
                    JobCommand::CheckDestination,
                ),
                Endpoint::Stdio => (
                    (JobModel { phase: PhaseModel::AwaitingDecode, ..j }),
                    JobCommand::DecodePixels,
                ),
            },
            Err(d) => (
                failed_job(j, JobErrorModel::InputRead(read_error_text(j.source, d))),
                JobCommand::Finish,
            ),
        },
        (PhaseModel::AwaitingDestCheck, EventModel::DestinationChecked(exists)) => {
            let p = match j.dest {
                Endpoint::File(p) => p,
                Endpoint::Stdio => Seq::empty(),
            };
            if exists && !j.overwrite {
                (
                    failed_job(j, JobErrorModel::DestinationExists(dest_exists_text(p))),
                    JobCommand::Finish,
                )
            } else {
                ((JobModel { phase: PhaseModel::AwaitingDecode, ..j }), JobCommand::DecodePixels)
            }
        },
        (PhaseModel::AwaitingDecode, EventModel::DecodeFinished(r)) => match r {
            Ok(_) => ((JobModel { phase: PhaseModel::AwaitingEncode, ..j }), JobCommand::EncodePixels),
            Err(d) => (failed_job(j, JobErrorModel::Decode(d)), JobCommand::Finish),
        },
        (PhaseModel::AwaitingEncode, EventModel::EncodeFinished(r)) => match r {
            Ok(s) => ((JobModel { phase: PhaseModel::AwaitingWrite(s), ..j }), JobCommand::WriteOutput),
            Err(d) => (failed_job(j, JobErrorModel::Encode(d)), JobCommand::Finish),
        },
        (PhaseModel::AwaitingWrite(s), EventModel::WriteFinished(r)) => match r {
            Ok(_) => (
                (JobModel {
                    phase: PhaseModel::Done(OutcomeModel::Success { target: j.dest, stats: s }),
                    ..j
                }),
                JobCommand::Finish,
            ),
            Err(d) => (
                failed_job(j, JobErrorModel::OutputWrite(write_error_text(d))),
                JobCommand::Finish,
            ),
        },
        _ => (j, JobCommand::Finish),
    }
}

impl Job {
    /// Starts a job on a source with its resolved destination; the first
    /// command is to read the source's bytes.
    pub fn start(source: InputSource, dest: OutputTarget, overwrite: bool) -> (r: (Job, JobCommand))
        ensures
            r.0@ == (JobModel {
                source: source@,
                dest: dest@,
                overwrite,
                phase: PhaseModel::AwaitingRead,
            }),
            r.1 == JobCommand::ReadSource,
    {
        (Job { source, dest, overwrite, phase: JobPhase::AwaitingRead }, JobCommand::ReadSource)
    }

    /// Advances the job by one reported event, returning the next command.
    pub fn advance(&mut self, event: JobEvent) -> (cmd: JobCommand)
        requires
            event_enabled(old(self)@, event@),
        ensures
            final(self)@ == job_step(old(self)@, event@).0,
            cmd == job_step(old(self)@, event@).1,
    {
        match event {
            JobEvent::ReadFinished(r) => match r {
                Ok(_) => match &self.dest {
                    OutputTarget::FilePath(_) => {
                        self.phase = JobPhase::AwaitingDestCheck;
                        JobCommand::CheckDestination
                    },
                    OutputTarget::Stdio => {
                        self.phase = JobPhase::AwaitingDecode;
                        JobCommand::DecodePixels
                    },
                },
                Err(detail) => {
                    let text: String = match &self.source {
                        InputSource::FilePath(p) => {
                            let t = String::from_str("Unable to read input image ").concat(
                                p.as_str(),
                            ).concat(": ").concat(detail.as_str());
                            proof {
                                assert(t@ =~= read_error_text(self.source@, detail@));
                            }
                            t
                        },
                        InputSource::Stdio => detail,
                    };
                    let description = self.source.description();
                    self.phase = JobPhase::Done(
                        ConversionOutcome::Failure {
                            description,
                            error: JobError::InputRead(text),
                        },
                    );
                    JobCommand::Finish
                },
            },
            JobEvent::DestinationChecked(exists) => {
                if exists && !self.overwrite {
                    let text: String = match &self.dest {
                        OutputTarget::FilePath(p) => {
                            let t = p.clone().concat(" already exists; skipping");
                            proof {
                                assert(t@ =~= dest_exists_text(p@));
                            }
                            t
                        },
                        OutputTarget::Stdio => {
                            proof {
                                assert(false);
                            }
                            String::new()
                        },
                    };
                    let description = self.source.description();
                    self.phase = JobPhase::Done(
                        ConversionOutcome::Failure {
                            description,
                            error: JobError::DestinationExists(text),
                        },
                    );
                    JobCommand::Finish
                } else {
                    self.phase = JobPhase::AwaitingDecode;
                    JobCommand::DecodePixels
                }
            },
            JobEvent::DecodeFinished(r) => match r {
                Ok(_) => {
                    self.phase = JobPhase::AwaitingEncode;
                    JobCommand::EncodePixels
                },
                Err(detail) => {
                    let description = self.source.description();
                    self.phase = JobPhase::Done(
                        ConversionOutcome::Failure {
                            description,
                            error: JobError::Decode(detail),
                        },
                    );
                    JobCommand::Finish
                },
            },
            JobEvent::EncodeFinished(r) => match r {
                Ok(stats) => {
                    self.phase = JobPhase::AwaitingWrite(stats);
                    JobCommand::WriteOutput
                },
                Err(detail) => {
                    let description = self.source.description();
                    self.phase = JobPhase::Done(
                        ConversionOutcome::Failure {
                            description,
                            error: JobError::Encode(detail),
                        },
                    );
                    JobCommand::Finish
                },
            },
            JobEvent::WriteFinished(r) => {
                let stats: EncodeStats = match &self.phase {
                    JobPhase::AwaitingWrite(s) => *s,
                    _ => {
                        proof {
                            assert(false);
                        }
                        EncodeStats { total_bytes: 0, color_bytes: 0, alpha_bytes: 0 }
                    },
                };
                match r {
                    Ok(_) => {
                        let target = self.dest.duplicate();
                        self.phase = JobPhase::Done(
                            ConversionOutcome::Success { target, stats },
                        );
                        JobCommand::Finish
                    },
                    Err(detail) => {
                        let text = String::from_str("Unable to write output image: ").concat(
                            detail.as_str(),
                        );
                        proof {
                            assert(text@ =~= write_error_text(detail@));
                        }
                        let description = self.source.description();
                        self.phase = JobPhase::Done(
                            ConversionOutcome::Failure {
                                description,
                                error: JobError::OutputWrite(text),
                            },
                        );
                        JobCommand::Finish
                    },
                }
            },
        }
    }
}

/// Plans the whole batch before any byte is read: every input source is
/// mapped to exactly one destination, by the output resolution rules alone,
/// and becomes a job awaiting its first read. Destinations never depend on
/// decoded content.
pub fn plan_batch(
    sources: Vec<InputSource>,
    global: &Option<OutputTarget>,
    use_dir: bool,
    overwrite: bool,
) -> (r: Vec<Job>)
    requires
        forall|k: int|
            0 <= k < sources@.len() ==> match (global, #[trigger] sources@[k]) {
                (Some(OutputTarget::FilePath(_)), InputSource::FilePath(p)) => use_dir
                    ==> crate::pathnames::has_base_name(p@),
                _ => true,
            },
    ensures
        r@.len() == sources@.len(),
        forall|k: int|
            0 <= k < r@.len() ==> #[trigger] r@[k]@ == (JobModel {
                source: sources@[k]@,
                dest: crate::outputs::resolved_output(
                    crate::outputs::target_option_model(global),
                    sources@[k]@,
                    use_dir,
                ),
                overwrite,
                phase: PhaseModel::AwaitingRead,
            }),
{
    let ghost sources0 = sources@;
    let mut jobs: Vec<Job> = Vec::new();
    let mut rest = sources;
    let n: usize = rest.len();
    let mut i: usize = 0;
    while i < n
        invariant
            i <= n,
            n == sources0.len(),
            rest@ == sources0.subrange(i as int, n as int),
            jobs@.len() == i,
            forall|k: int|
                0 <= k < sources0.len() ==> match (global, #[trigger] sources0[k]) {
                    (Some(OutputTarget::FilePath(_)), InputSource::FilePath(p)) => use_dir
                        ==> crate::pathnames::has_base_name(p@),
                    _ => true,
                },
            forall|k: int|
                0 <= k < i ==> #[trigger] jobs@[k]@ == (JobModel {
                    source: sources0[k]@,
                    dest: crate::outputs::resolved_output(
                        crate::outputs::target_option_model(global),
                        sources0[k]@,
                        use_dir,
                    ),
                    overwrite,
                    phase: PhaseModel::AwaitingRead,
                }),
        decreases n - i,
    {
        let source = rest.remove(0);
        proof {
            assert(source == sources0[i as int]);
            assert(rest@ =~= sources0.subrange(i as int + 1, n as int));
        }
        let dest = crate::outputs::resolve_output(global, &source, use_dir);
        let (job, _) = Job::start(source, dest, overwrite);
        jobs.push(job);
        i = i + 1;
    }
    jobs
}

/// An existing destination with the overwrite flag off settles the job as a
/// destination-exists failure right after the read: the decode and encode
/// collaborators are never commanded on the way there.
pub proof fn lemma_destination_exists_short_circuits(j0: JobModel, p: Seq<char>)
    requires
        j0.phase == PhaseModel::AwaitingRead,
        j0.dest == Endpoint::File(p),
        !j0.overwrite,
    ensures
        ({
            let s1 = job_step(j0, EventModel::ReadFinished(Ok(())));
            let s2 = job_step(s1.0, EventModel::DestinationChecked(true));
            &&& s1.1 == JobCommand::CheckDestination
            &&& s2.1 == JobCommand::Finish
            &&& s2.0.phase == PhaseModel::Done(
                OutcomeModel::Failure {
                    description: description_of(j0.source),
                    error: JobErrorModel::DestinationExists(dest_exists_text(p)),
                },
            )
            &&& s1.1 != JobCommand::DecodePixels && s1.1 != JobCommand::EncodePixels
            &&& s2.1 != JobCommand::DecodePixels && s2.1 != JobCommand::EncodePixels
        }),
{
}

/// Kilobytes rounded up: the total byte count divided by 1000, rounded
/// toward the next whole kilobyte.
pub fn kilobytes_rounded_up(total: usize) -> (r: usize)
    ensures
        r == (total + 999) / 1000,
{
    let q: usize = total / 1000;
    let m: usize = total % 1000;
    proof {
        lemma_fundamental_div_mod(total as int, 1000);
        if m == 0 {
            lemma_fundamental_div_mod_converse(total as int + 999, 1000, q as int, 999);
        } else {
            lemma_fundamental_div_mod_converse(total as int + 999, 1000, q as int + 1, m as int - 1);
        }
    }
    if m != 0 {
        q + 1
    } else {
        q
    }
}

/// The one-line success report: destination path, size in kilobytes rounded
/// up, and the byte breakdown between the color plane, the alpha plane, and
/// the container overhead.
pub open spec fn report_text(p: Seq<char>, s: EncodeStats) -> Seq<char> {
    p + ": "@ + dec_rep(((s.total_bytes + 999) / 1000) as nat) + "KB ("@ + dec_rep(
        s.color_bytes as nat,
    ) + "B color, "@ + dec_rep(s.alpha_bytes as nat) + "B alpha, "@ + dec_rep(
        (s.total_bytes - s.color_bytes - s.alpha_bytes) as nat,
    ) + "B HEIF)"@
}

/// The report a settled outcome prints: one line for a success written to a
/// file path when quiet mode is off, nothing otherwise.
pub open spec fn report_of(o: OutcomeModel, quiet: bool) -> Option<Seq<char>> {
    match o {
        OutcomeModel::Success { target: Endpoint::File(p), stats } => if quiet {
            None
        } else {
            Some(report_text(p, stats))
        },
        _ => None,
    }
}

impl ConversionOutcome {
    /// The success report line to print, if any.
    pub fn success_report(&self, quiet: bool) -> (r: Option<String>)
        requires
            outcome_wf(self@),
        ensures
            match r {
                Some(line) => report_of(self@, quiet) == Some(line@),
                None => report_of(self@, quiet) is None,
            },
    {
        match self {
            ConversionOutcome::Success { target: OutputTarget::FilePath(p), stats } => {
                if quiet {
                    None
                } else {
                    let kb = kilobytes_rounded_up(stats.total_bytes);
                    let overhead: usize = stats.total_bytes - stats.color_bytes
                        - stats.alpha_bytes;
                    let line = p.clone().concat(": ").concat(
                        decimal_string(kb).as_str(),
                    ).concat("KB (").concat(decimal_string(stats.color_bytes).as_str()).concat(
                        "B color, ",
                    ).concat(decimal_string(stats.alpha_bytes).as_str()).concat(
                        "B alpha, ",
                    ).concat(decimal_string(overhead).as_str()).concat("B HEIF)");
                    proof {
                        assert(line@ =~= report_text(p@, *stats));
                    }
                    Some(line)
                }
            },
            _ => None,
        }
    }

    /// The failure's reported text, if the outcome is one.
    pub fn failure_text(&self) -> (r: Option<String>)
        ensures
            match r {
                Some(line) => (self@ matches OutcomeModel::Failure { description, error }
                    && line@ == failure_line(description, error)),
                None => self@ matches OutcomeModel::Success { .. },
            },
    {
        match self {
            ConversionOutcome::Failure { description, error } => {
                let line = description.clone().concat(": error: ").concat(
                    error.detail().as_str(),
                );
                proof {
                    assert(line@ =~= failure_line(description@, error@));
                }
                Some(line)
            },
            ConversionOutcome::Success { .. } => None,
        }
    }
}

} // verus!
