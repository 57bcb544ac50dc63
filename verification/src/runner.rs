//! The transcode runner, as a state machine.
//!
//! The runner decides; its caller acts. The caller feeds in what happened
//! (the encoder started, a diagnostic line arrived, the stream closed, the
//! child exited) and carries out the action that comes back (start the
//! encoder, read a line, deliver a progress sample, wait for the child,
//! deliver the outcome). The runner itself starts no process and reads no
//! stream.

use vstd::prelude::*;
use vstd::string::StringExecFns;
use crate::engine::{
    encoder_command,
    encoder_invocation,
    Invocation,
    InvocationView,
    MediaJob,
    MediaJobView,
};
use crate::progress::{classify, sample_for_line, sample_of, ProgressSample};

verus! {

/// Where a job stands.
#[derive(Clone, Copy, Debug, PartialEq, Eq, Structural)]
pub enum Phase {
    /// Nothing has been asked for yet.
    Ready,
    /// The encoder is being started.
    Starting,
    /// The diagnostic stream is being read.
    Streaming,
    /// The child is being waited for.
    Reaping,
    /// The outcome has been delivered.
    Finished,
}

/// Why an encode failed.
#[derive(Clone, Debug, PartialEq, Eq)]
pub enum EncodeError {
    /// The encoder could not be started.
    Launch(String),
    /// The diagnostic stream could not be read.
    Stream(String),
    /// The encoder exited with failure; the text is its diagnostic output.
    Encode(String),
}

/// How a job ended.
#[derive(Clone, Debug, PartialEq, Eq)]
pub enum JobOutcome {
    Success,
    Failure(EncodeError),
    Cancelled,
}

/// What the caller reports to the runner.
#[derive(Clone, Debug, PartialEq, Eq)]
pub enum Event {
    /// The caller wants the job to begin.
    Start,
    /// The encoder is running.
    Spawned,
    /// The encoder could not be started; the text says why.
    SpawnFailed(String),
    /// One line of the diagnostic stream, with its line end.
    Line(String),
    /// The diagnostic stream has closed.
    EndOfStream,
    /// Reading the diagnostic stream failed; the text says why.
    ReadFailed(String),
    /// The child has exited; the text is what it wrote to its diagnostic
    /// stream that no `Line` has reported.
    Exited { success: bool, diagnostics: String },
    /// The caller wants the job to stop.
    Cancel,
}

/// What the runner asks of the caller.
#[derive(Clone, Debug, PartialEq, Eq)]
pub enum Action {
    /// Start this command with its diagnostic stream piped, then report
    /// `Spawned` or `SpawnFailed`.
    Spawn(Invocation),
    /// Read the next diagnostic line, then report `Line`, `EndOfStream` or
    /// `ReadFailed`.
    ReadLine,
    /// Deliver this sample, then read the next diagnostic line.
    Report(ProgressSample),
    /// Wait for the child to exit, then report `Exited`.
    Wait,
    /// Terminate the child, wait for it to exit, then report `Exited`.
    Terminate,
    /// Deliver this outcome; the job is over.
    Finish(JobOutcome),
    /// The event has no meaning in this phase; nothing has changed.
    Ignore,
}

/// The mathematical value of an `EncodeError`.
pub enum EncodeErrorView {
    Launch(Seq<char>),
    Stream(Seq<char>),
    Encode(Seq<char>),
}

/// The mathematical value of a `JobOutcome`.
pub enum JobOutcomeView {
    Success,
    Failure(EncodeErrorView),
    Cancelled,
}

/// The mathematical value of an `Event`.
pub enum EventView {
    Start,
    Spawned,
    SpawnFailed(Seq<char>),
    Line(Seq<char>),
    EndOfStream,
    ReadFailed(Seq<char>),
    Exited { success: bool, diagnostics: Seq<char> },
    Cancel,
}

/// The mathematical value of an `Action`.
pub enum ActionView {
    Spawn(InvocationView),
    ReadLine,
    Report(ProgressSample),
    Wait,
    Terminate,
    Finish(JobOutcomeView),
    Ignore,
}

/// The mathematical value of a `Runner`.
pub struct RunnerView {
    pub job: MediaJobView,
    pub phase: Phase,
    /// The diagnostic lines read so far, one after the other.
    pub captured: Seq<char>,
    /// The reason why reading the diagnostic stream failed, once it has.
    pub stream_error: Option<Seq<char>>,
    /// True once the caller has asked for the job to stop.
    pub cancelled: bool,
}

impl View for EncodeError {
    type V = EncodeErrorView;

    open spec fn view(&self) -> EncodeErrorView {
        match self {
            EncodeError::Launch(why) => EncodeErrorView::Launch(why@),
            EncodeError::Stream(why) => EncodeErrorView::Stream(why@),
            EncodeError::Encode(text) => EncodeErrorView::Encode(text@),
        }
    }
}

impl View for JobOutcome {
    type V = JobOutcomeView;

    open spec fn view(&self) -> JobOutcomeView {
        match self {
            JobOutcome::Success => JobOutcomeView::Success,
            JobOutcome::Failure(e) => JobOutcomeView::Failure(e@),
            JobOutcome::Cancelled => JobOutcomeView::Cancelled,
        }
    }
}

impl View for Event {
    type V = EventView;

    open spec fn view(&self) -> EventView {
        match self {
            Event::Start => EventView::Start,
            Event::Spawned => EventView::Spawned,
            Event::SpawnFailed(why) => EventView::SpawnFailed(why@),
            Event::Line(line) => EventView::Line(line@),
            Event::EndOfStream => EventView::EndOfStream,
            Event::ReadFailed(why) => EventView::ReadFailed(why@),
            Event::Exited { success, diagnostics } => EventView::Exited {
                success: *success,
                diagnostics: diagnostics@,
            },
            Event::Cancel => EventView::Cancel,
        }
    }
}

impl View for Action {
    type V = ActionView;

    open spec fn view(&self) -> ActionView {
        match self {
            Action::Spawn(inv) => ActionView::Spawn(inv@),
            Action::ReadLine => ActionView::ReadLine,
            Action::Report(sample) => ActionView::Report(*sample),
            Action::Wait => ActionView::Wait,
            Action::Terminate => ActionView::Terminate,
            Action::Finish(outcome) => ActionView::Finish(outcome@),
            Action::Ignore => ActionView::Ignore,
        }
    }
}

/// The outcome of a job whose child has exited: cancelled where that was
/// asked for, else a stream error where reading failed, else success or an
/// encode error, as the exit status says. The encode error carries all the
/// diagnostic text: the lines read, then what the exit reported.
pub open spec fn outcome_of(r: RunnerView, success: bool, diagnostics: Seq<char>) -> JobOutcomeView {
    if r.cancelled {
        JobOutcomeView::Cancelled
    } else if r.stream_error is Some {
        JobOutcomeView::Failure(EncodeErrorView::Stream(r.stream_error->0))
    } else {
        exit_outcome(success, r.captured + diagnostics)
    }
}

/// The outcome that an exit status stands for when nothing else went wrong.
pub open spec fn exit_outcome(success: bool, diagnostics: Seq<char>) -> JobOutcomeView {
    if success {
        JobOutcomeView::Success
    } else {
        JobOutcomeView::Failure(EncodeErrorView::Encode(diagnostics))
    }
}

/// The runner after `event`, and what it asks of the caller.
pub open spec fn transition(r: RunnerView, event: EventView) -> (RunnerView, ActionView) {
    match (r.phase, event) {
        (Phase::Ready, EventView::Start) => (
            RunnerView { phase: Phase::Starting, ..r },
            ActionView::Spawn(encoder_command(r.job)),
        ),
        (Phase::Starting, EventView::SpawnFailed(why)) => (
            RunnerView { phase: Phase::Finished, ..r },
            ActionView::Finish(JobOutcomeView::Failure(EncodeErrorView::Launch(why))),
        ),
        (Phase::Starting, EventView::Spawned) => if r.job.transform.tracks_progress() {
            (RunnerView { phase: Phase::Streaming, ..r }, ActionView::ReadLine)
        } else {
            (RunnerView { phase: Phase::Reaping, ..r }, ActionView::Wait)
        },
        (Phase::Streaming, EventView::Line(line)) => (
            RunnerView { captured: r.captured + line, ..r },
            match sample_of(classify(line), r.job.total_units) {
                Some(sample) => ActionView::Report(sample),
                None => ActionView::ReadLine,
            },
        ),
        (Phase::Streaming, EventView::EndOfStream) => (
            RunnerView { phase: Phase::Reaping, ..r },
            ActionView::Wait,
        ),
        (Phase::Streaming, EventView::ReadFailed(why)) => (
            RunnerView { phase: Phase::Reaping, stream_error: Some(why), ..r },
            ActionView::Wait,
        ),
        (Phase::Streaming, EventView::Cancel) => (
            RunnerView { phase: Phase::Reaping, cancelled: true, ..r },
            ActionView::Terminate,
        ),
        (Phase::Reaping, EventView::Cancel) => (
            RunnerView { cancelled: true, ..r },
            ActionView::Terminate,
        ),
        (Phase::Reaping, EventView::Exited { success, diagnostics }) => (
            RunnerView { phase: Phase::Finished, ..r },
            ActionView::Finish(outcome_of(r, success, diagnostics)),
        ),
        _ => (r, ActionView::Ignore),
    }
}

/// The runner of a job for which nothing has been done yet.
pub open spec fn initial(job: MediaJobView) -> RunnerView {
    RunnerView {
        job,
        phase: Phase::Ready,
        captured: Seq::empty(),
        stream_error: None,
        cancelled: false,
    }
}

/// What a run delivers: the progress samples in the order of their lines,
/// and the outcome, if the events reach one.
pub struct TranscriptView {
    pub samples: Seq<ProgressSample>,
    pub outcome: Option<JobOutcomeView>,
}

/// What the runner delivers when it is fed `events` one after the other,
/// up to the outcome.
pub open spec fn run_from(r: RunnerView, events: Seq<EventView>) -> TranscriptView
    decreases events.len(),
{
    if events.len() == 0 {
        TranscriptView { samples: Seq::empty(), outcome: None }
    } else {
        let (next, action) = transition(r, events[0]);
        match action {
            ActionView::Finish(outcome) => TranscriptView {
                samples: Seq::empty(),
                outcome: Some(outcome),
            },
            ActionView::Report(sample) => {
                let rest = run_from(next, events.skip(1));
                TranscriptView { samples: seq![sample] + rest.samples, outcome: rest.outcome }
            },
            _ => run_from(next, events.skip(1)),
        }
    }
}

/// The samples that a run of diagnostic lines gives rise to, in the order of
/// the lines.
pub open spec fn samples_of(lines: Seq<Seq<char>>, total: Option<u64>) -> Seq<ProgressSample>
    decreases lines.len(),
{
    if lines.len() == 0 {
        Seq::empty()
    } else {
        match sample_of(classify(lines[0]), total) {
            Some(sample) => seq![sample] + samples_of(lines.skip(1), total),
            None => samples_of(lines.skip(1), total),
        }
    }
}

/// The events of a child that started, wrote `lines` to its diagnostic
/// stream, closed the stream and exited.
pub open spec fn streamed(lines: Seq<Seq<char>>, success: bool, diagnostics: Seq<char>) -> Seq<
    EventView,
> {
    seq![EventView::Start, EventView::Spawned] + lines.map_values(|l: Seq<char>| EventView::Line(l))
        + seq![EventView::EndOfStream, EventView::Exited { success, diagnostics }]
}

/// The lines of a stream, one after the other.
pub open spec fn joined(lines: Seq<Seq<char>>) -> Seq<char>
    decreases lines.len(),
{
    if lines.len() == 0 {
        Seq::empty()
    } else {
        lines[0] + joined(lines.skip(1))
    }
}

/// Once the outcome has been delivered nothing more happens: every event is
/// ignored and the runner stays as it is. So a job has one outcome at most.
pub proof fn lemma_finished_is_final(r: RunnerView, event: EventView)
    requires
        r.phase == Phase::Finished,
    ensures
        transition(r, event) == (r, ActionView::Ignore),
{
}

/// The runner delivers an outcome exactly when it moves to the finished
/// phase.
pub proof fn lemma_finish_ends_job(r: RunnerView, event: EventView)
    requires
        r.phase != Phase::Finished,
    ensures
        transition(r, event).1 is Finish <==> transition(r, event).0.phase == Phase::Finished,
{
}

/// No event changes the job that the runner supervises: its paths, its
/// transform and its frame count stay what they were when it was made.
pub proof fn lemma_job_is_fixed(r: RunnerView, event: EventView)
    ensures
        transition(r, event).0.job == r.job,
{
}

/// A job whose encoder cannot be started ends at once with a launch error:
/// no line is read and no child is waited for.
pub proof fn lemma_launch_failure(job: MediaJobView, why: Seq<char>)
    ensures
        run_from(initial(job), seq![EventView::Start, EventView::SpawnFailed(why)]) == (
        TranscriptView {
            samples: Seq::empty(),
            outcome: Some(JobOutcomeView::Failure(EncodeErrorView::Launch(why))),
        }),
{
    let events = seq![EventView::Start, EventView::SpawnFailed(why)];
    let started = transition(initial(job), events[0]).0;
    assert(events.skip(1)[0] == EventView::SpawnFailed(why));
    assert(run_from(started, events.skip(1)).samples =~= Seq::<ProgressSample>::empty());
}

/// A job without progress tracking goes from the start of its encoder
/// straight to waiting for it, and its outcome is what the exit status says.
/// The outcome depends on nothing else, so a repeated run that exits the same
/// way ends the same way.
pub proof fn lemma_untracked_run(job: MediaJobView, success: bool, diagnostics: Seq<char>)
    requires
        !job.transform.tracks_progress(),
    ensures
        run_from(
            initial(job),
            seq![EventView::Start, EventView::Spawned, EventView::Exited { success, diagnostics }],
        ) == (TranscriptView {
            samples: Seq::empty(),
            outcome: Some(exit_outcome(success, diagnostics)),
        }),
{
    let events = seq![
        EventView::Start,
        EventView::Spawned,
        EventView::Exited { success, diagnostics },
    ];
    let r1 = transition(initial(job), events[0]).0;
    let e1 = events.skip(1);
    assert(e1[0] == EventView::Spawned);
    let r2 = transition(r1, e1[0]).0;
    let e2 = e1.skip(1);
    assert(e2[0] == EventView::Exited { success, diagnostics });
    assert(r2.captured + diagnostics =~= diagnostics);
    assert(run_from(r2, e2).samples =~= Seq::<ProgressSample>::empty());
    assert(run_from(r1, e1) == run_from(r2, e2));
}

/// While the stream is read, each line yields its sample in turn, and the
/// close of the stream and the exit of the child yield the outcome.
proof fn lemma_streaming_tail(
    r: RunnerView,
    lines: Seq<Seq<char>>,
    success: bool,
    diagnostics: Seq<char>,
)
    requires
        r.phase == Phase::Streaming,
        !r.cancelled,
        r.stream_error is None,
    ensures
        run_from(
            r,
            lines.map_values(|l: Seq<char>| EventView::Line(l)) + seq![
                EventView::EndOfStream,
                EventView::Exited { success, diagnostics },
            ],
        ) == (TranscriptView {
            samples: samples_of(lines, r.job.total_units),
            outcome: Some(exit_outcome(success, r.captured + joined(lines) + diagnostics)),
        }),
    decreases lines.len(),
{
    let tail = seq![EventView::EndOfStream, EventView::Exited { success, diagnostics }];
    let events = lines.map_values(|l: Seq<char>| EventView::Line(l)) + tail;
    if lines.len() == 0 {
        assert(events =~= tail);
        let r1 = transition(r, events[0]).0;
        let e1 = events.skip(1);
        assert(e1[0] == EventView::Exited { success, diagnostics });
        assert(r.captured + joined(lines) + diagnostics =~= r1.captured + diagnostics);
        assert(run_from(r1, e1).samples =~= Seq::<ProgressSample>::empty());
        assert(run_from(r, events).samples =~= samples_of(lines, r.job.total_units));
    } else {
        assert(events[0] == EventView::Line(lines[0]));
        let rest = lines.skip(1);
        let next = transition(r, events[0]).0;
        assert(events.skip(1) =~= rest.map_values(|l: Seq<char>| EventView::Line(l)) + tail);
        lemma_streaming_tail(next, rest, success, diagnostics);
        assert(next.captured + joined(rest) + diagnostics =~= r.captured + joined(lines)
            + diagnostics);
    }
}

/// A job with progress tracking whose encoder starts, writes `lines`, closes
/// its stream and exits delivers the samples of those lines in the order in
/// which the lines came, and after them the outcome that the exit status
/// stands for; a failure carries every line and then what the exit reported.
pub proof fn lemma_streamed_run(
    job: MediaJobView,
    lines: Seq<Seq<char>>,
    success: bool,
    diagnostics: Seq<char>,
)
    requires
        job.transform.tracks_progress(),
    ensures
        run_from(initial(job), streamed(lines, success, diagnostics)) == (TranscriptView {
            samples: samples_of(lines, job.total_units),
            outcome: Some(exit_outcome(success, joined(lines) + diagnostics)),
        }),
{
    let tail = lines.map_values(|l: Seq<char>| EventView::Line(l)) + seq![
        EventView::EndOfStream,
        EventView::Exited { success, diagnostics },
    ];
    let events = streamed(lines, success, diagnostics);
    let r1 = transition(initial(job), events[0]).0;
    let e1 = events.skip(1);
    assert(e1[0] == EventView::Spawned);
    let r2 = transition(r1, e1[0]).0;
    assert(e1.skip(1) =~= tail);
    lemma_streaming_tail(r2, lines, success, diagnostics);
    assert(r2.captured + joined(lines) + diagnostics =~= joined(lines) + diagnostics);
    assert(run_from(r1, e1) == run_from(r2, tail));
}

/// The state machine that supervises one job.
pub struct Runner {
    job: MediaJob,
    phase: Phase,
    captured: String,
    stream_error: Option<String>,
    cancelled: bool,
}

/// The samples and the outcome that a run delivered.
#[derive(Clone, Debug, PartialEq, Eq)]
pub struct Transcript {
    pub samples: Vec<ProgressSample>,
    pub outcome: Option<JobOutcome>,
}

impl View for Transcript {
    type V = TranscriptView;

    open spec fn view(&self) -> TranscriptView {
        TranscriptView {
            samples: self.samples@,
            outcome: match self.outcome {
                Some(o) => Some(o@),
                None => None,
            },
        }
    }
}

impl View for Runner {
    type V = RunnerView;

    closed spec fn view(&self) -> RunnerView {
        RunnerView {
            job: self.job@,
            phase: self.phase,
            captured: self.captured@,
            stream_error: match self.stream_error {
                Some(why) => Some(why@),
                None => None,
            },
            cancelled: self.cancelled,
        }
    }
}

impl Runner {
    /// A runner for `job`, ready to start.
    pub fn new(job: MediaJob) -> (runner: Runner)
        ensures
            runner@ == initial(job@),
    {
        Runner {
            job,
            phase: Phase::Ready,
            captured: String::new(),
            stream_error: None,
            cancelled: false,
        }
    }

    /// Where the job stands.
    pub fn phase(&self) -> (phase: Phase)
        ensures
            phase == self@.phase,
    {
        self.phase
    }

    /// True once the outcome has been delivered.
    pub fn is_finished(&self) -> (done: bool)
        ensures
            done == (self@.phase == Phase::Finished),
    {
        match self.phase {
            Phase::Finished => true,
            _ => false,
        }
    }

    /// The outcome of the job now that its child has exited.
    fn outcome(&self, success: bool, diagnostics: &String) -> (outcome: JobOutcome)
        ensures
            outcome@ == outcome_of(self@, success, diagnostics@),
    {
        if self.cancelled {
            JobOutcome::Cancelled
        } else {
            match &self.stream_error {
                Some(why) => JobOutcome::Failure(EncodeError::Stream(why.clone())),
                None => {
                    if success {
                        JobOutcome::Success
                    } else {
                        let text = self.captured.clone().concat(diagnostics.as_str());
                        JobOutcome::Failure(EncodeError::Encode(text))
                    }
                },
            }
        }
    }

    /// Takes in one event, moves to the next state and says what the caller
    /// is to do. An event that the phase does not expect changes nothing and
    /// is answered with `Ignore`.
    pub fn step(&mut self, event: &Event) -> (action: Action)
        ensures
            final(self)@ == transition(old(self)@, event@).0,
            action@ == transition(old(self)@, event@).1,
    {
        match self.phase {
            Phase::Ready => match event {
                Event::Start => {
                    self.phase = Phase::Starting;
                    Action::Spawn(encoder_invocation(&self.job))
                },
                _ => Action::Ignore,
            },
            Phase::Starting => match event {
                Event::SpawnFailed(why) => {
                    self.phase = Phase::Finished;
                    Action::Finish(JobOutcome::Failure(EncodeError::Launch(why.clone())))
                },
                Event::Spawned => {
                    match &self.job.transform {
                        crate::engine::Transform::Filter(_) => {
                            self.phase = Phase::Streaming;
                            Action::ReadLine
                        },
                        crate::engine::Transform::Mute => {
                            self.phase = Phase::Reaping;
                            Action::Wait
                        },
                    }
                },
                _ => Action::Ignore,
            },
            Phase::Streaming => match event {
                Event::Line(line) => {
                    self.captured.append(line.as_str());
                    match sample_for_line(line.as_str(), self.job.total_units) {
                        Some(sample) => Action::Report(sample),
                        None => Action::ReadLine,
                    }
                },
                Event::EndOfStream => {
                    self.phase = Phase::Reaping;
                    Action::Wait
                },
                Event::ReadFailed(why) => {
                    self.phase = Phase::Reaping;
                    self.stream_error = Some(why.clone());
                    Action::Wait
                },
                Event::Cancel => {
                    self.phase = Phase::Reaping;
                    self.cancelled = true;
                    Action::Terminate
                },
                _ => Action::Ignore,
            },
            Phase::Reaping => match event {
                Event::Cancel => {
                    self.cancelled = true;
                    Action::Terminate
                },
                Event::Exited { success, diagnostics } => {
                    let outcome = self.outcome(*success, diagnostics);
                    self.phase = Phase::Finished;
                    Action::Finish(outcome)
                },
                _ => Action::Ignore,
            },
            Phase::Finished => Action::Ignore,
        }
    }
}

/// The mathematical values of a list of events.
pub open spec fn events_view(events: Seq<Event>) -> Seq<EventView> {
    events.map_values(|e: Event| e@)
}

/// Runs `job` against a record of what its child did: feeds the events to a
/// fresh runner one after the other and collects what it delivers, up to the
/// outcome. Events after the outcome are not looked at.
pub fn run_transform(job: MediaJob, events: &Vec<Event>) -> (transcript: Transcript)
    ensures
        transcript@ == run_from(initial(job@), events_view(events@)),
{
    let ghost all = events_view(events@);
    let ghost start = initial(job@);
    let mut runner = Runner::new(job);
    let mut samples: Vec<ProgressSample> = Vec::new();
    let mut i: usize = 0;
    proof {
        assert(all.skip(0) =~= all);
        assert(samples@ + run_from(start, all).samples =~= run_from(start, all).samples);
    }
    while i < events.len()
        invariant
            i <= events.len(),
            all == events_view(events@),
            start == initial(job@),
            run_from(start, all).samples == samples@ + run_from(runner@, all.skip(i as int)).samples,
            run_from(start, all).outcome == run_from(runner@, all.skip(i as int)).outcome,
        decreases events.len() - i,
    {
        let ghost before = runner@;
        let ghost rest = all.skip(i as int);
        proof {
            assert(rest[0] == events[i as int]@);
            assert(rest.skip(1) =~= all.skip(i + 1));
        }
        match runner.step(&events[i]) {
            Action::Finish(outcome) => {
                let transcript = Transcript { samples, outcome: Some(outcome) };
                proof {
                    assert(transcript@.samples =~= run_from(start, all).samples);
                }
                return transcript;
            },
            Action::Report(sample) => {
                let ghost earlier = samples@;
                samples.push(sample);
                proof {
                    let later = run_from(runner@, all.skip(i + 1)).samples;
                    assert(samples@ + later =~= earlier + (seq![sample] + later));
                }
            },
            _ => {},
        }
        i = i + 1;
    }
    let transcript = Transcript { samples, outcome: None };
    proof {
        assert(transcript@.samples =~= run_from(start, all).samples);
    }
    transcript
}

} // verus!
