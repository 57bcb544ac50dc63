//! Jobs and the command lines that carry them out.
//!
//! A job names an input, an output and a transform. Nothing here starts a
//! process: a job is turned into the program name and argument list that the
//! caller hands to the operating system.

use vstd::prelude::*;

verus! {

/// What is done to the input.
#[derive(Clone, Debug, PartialEq, Eq)]
pub enum Transform {
    /// Copy every stream but the audio; runs without progress tracking.
    Mute,
    /// Re-encode the video through this filter expression.
    Filter(String),
}

/// One requested transform of one file.
#[derive(Clone, Debug, PartialEq, Eq)]
pub struct MediaJob {
    pub input: String,
    pub output: String,
    pub transform: Transform,
    /// The frame count of the input, where it was probed beforehand.
    pub total_units: Option<u64>,
}

/// A program and the arguments it is started with.
#[derive(Clone, Debug, PartialEq, Eq)]
pub struct Invocation {
    pub program: String,
    pub arguments: Vec<String>,
}

/// The mathematical value of a `Transform`.
pub enum TransformView {
    Mute,
    Filter(Seq<char>),
}

/// The mathematical value of a `MediaJob`.
pub struct MediaJobView {
    pub input: Seq<char>,
    pub output: Seq<char>,
    pub transform: TransformView,
    pub total_units: Option<u64>,
}

/// The mathematical value of an `Invocation`.
pub struct InvocationView {
    pub program: Seq<char>,
    pub arguments: Seq<Seq<char>>,
}

impl View for Transform {
    type V = TransformView;

    open spec fn view(&self) -> TransformView {
        match self {
            Transform::Mute => TransformView::Mute,
            Transform::Filter(f) => TransformView::Filter(f@),
        }
    }
}

impl View for MediaJob {
    type V = MediaJobView;

    open spec fn view(&self) -> MediaJobView {
        MediaJobView {
            input: self.input@,
            output: self.output@,
            transform: self.transform@,
            total_units: self.total_units,
        }
    }
}

impl View for Invocation {
    type V = InvocationView;

    open spec fn view(&self) -> InvocationView {
        InvocationView {
            program: self.program@,
            arguments: self.arguments@.map_values(|a: String| a@),
        }
    }
}

impl TransformView {
    /// True for the transforms whose diagnostic stream is read for progress.
    pub open spec fn tracks_progress(self) -> bool {
        self is Filter
    }
}

/// The command line that mutes: the encoder copies every stream but the
/// audio, and overwrites the output without asking.
pub open spec fn mute_command(input: Seq<char>, output: Seq<char>) -> InvocationView {
    InvocationView {
        program: "ffmpeg"@,
        arguments: seq!["-i"@, input, "-c"@, "copy"@, "-an"@, output, "-y"@],
    }
}

/// The command line that filters: the encoder applies `filter` to the video
/// with debug diagnostics on, and overwrites the output without asking.
pub open spec fn filter_command(
    input: Seq<char>,
    filter: Seq<char>,
    output: Seq<char>,
) -> InvocationView {
    InvocationView {
        program: "ffmpeg"@,
        arguments: seq!["-i"@, input, "-vf"@, filter, "-loglevel"@, "debug"@, output, "-y"@],
    }
}

/// The command line that asks the metadata tool for the frame count alone.
pub open spec fn probe_command(input: Seq<char>) -> InvocationView {
    InvocationView {
        program: "mediainfo"@,
        arguments: seq!["--Output=Video;%FrameCount%"@, input],
    }
}

/// The encoder command line of a job.
pub open spec fn encoder_command(job: MediaJobView) -> InvocationView {
    match job.transform {
        TransformView::Mute => mute_command(job.input, job.output),
        TransformView::Filter(f) => filter_command(job.input, f, job.output),
    }
}

/// Every encoder command line ends with the switch that lets the encoder
/// overwrite an output that is already there, so a job can be repeated on the
/// same paths with the same command line.
pub proof fn lemma_encoder_overwrites(job: MediaJobView)
    ensures
        encoder_command(job).arguments.len() > 0,
        encoder_command(job).arguments.last() == "-y"@,
        encoder_command(job).program == "ffmpeg"@,
{
}

/// The job that strips the audio from `input` into `output`.
pub fn mute(input: &str, output: &str) -> (job: MediaJob)
    ensures
        job@ == (MediaJobView {
            input: input@,
            output: output@,
            transform: TransformView::Mute,
            total_units: None,
        }),
{
    MediaJob {
        input: input.to_owned(),
        output: output.to_owned(),
        transform: Transform::Mute,
        total_units: None,
    }
}

/// The job that runs `input` through the video filter `mode` into
/// `output_file`, with the frame count of the input where it is known.
pub fn rotate(input: &str, output_file: &str, mode: &str, total_units: Option<u64>) -> (job:
    MediaJob)
    ensures
        job@ == (MediaJobView {
            input: input@,
            output: output_file@,
            transform: TransformView::Filter(mode@),
            total_units,
        }),
{
    MediaJob {
        input: input.to_owned(),
        output: output_file.to_owned(),
        transform: Transform::Filter(mode.to_owned()),
        total_units,
    }
}

/// Builds the command line that asks for the frame count of `input`.
pub fn probe_invocation(input: &str) -> (inv: Invocation)
    ensures
        inv@ == probe_command(input@),
{
    let mut arguments: Vec<String> = Vec::new();
    arguments.push("--Output=Video;%FrameCount%".to_owned());
    arguments.push(input.to_owned());
    let inv = Invocation { program: "mediainfo".to_owned(), arguments };
    assert(inv@.arguments =~= probe_command(input@).arguments);
    inv
}

/// Builds the encoder command line of `job`.
pub fn encoder_invocation(job: &MediaJob) -> (inv: Invocation)
    ensures
        inv@ == encoder_command(job@),
{
    let mut arguments: Vec<String> = Vec::new();
    arguments.push("-i".to_owned());
    arguments.push(job.input.clone());
    match &job.transform {
        Transform::Mute => {
            arguments.push("-c".to_owned());
            arguments.push("copy".to_owned());
            arguments.push("-an".to_owned());
        },
        Transform::Filter(filter) => {
            arguments.push("-vf".to_owned());
            arguments.push(filter.clone());
            arguments.push("-loglevel".to_owned());
            arguments.push("debug".to_owned());
        },
    }
    arguments.push(job.output.clone());
    arguments.push("-y".to_owned());
    let inv = Invocation { program: "ffmpeg".to_owned(), arguments };
    assert(inv@.arguments =~= encoder_command(job@).arguments);
    inv
}

} // verus!
