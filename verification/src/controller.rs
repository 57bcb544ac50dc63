//! The front end's state and the way messages change it.
//!
//! The window, its widgets and its dialogs live outside this library. What
//! lives here is the state behind them and one function, `update`, that takes
//! a message, changes the state and says what the front end is to do next:
//! nothing, show a file dialog, or run a job.

use vstd::prelude::*;
use vstd::string::StringExecFns;
use crate::dialog::{
    dialog_request,
    open_file,
    save_file,
    DialogKind,
    DialogRequest,
    DialogRequestView,
};
use crate::engine::{mute, MediaJob, MediaJobView, TransformView};
use crate::progress::FULL;
use crate::runner::{EncodeError, EncodeErrorView, JobOutcome, JobOutcomeView};
use crate::text::{ends_with, str_ends_with};

verus! {

/// Whether a notice reports success or failure.
#[derive(Clone, Copy, Debug, PartialEq, Eq, Structural)]
pub enum ToastKind {
    Success,
    Error,
}

/// A notice shown to the user.
#[derive(Clone, Debug, PartialEq, Eq)]
pub struct Toast {
    pub message: String,
    pub kind: ToastKind,
}

/// The field of the state that a file dialog fills.
#[derive(Clone, Copy, Debug, PartialEq, Eq, Structural)]
pub enum PickTarget {
    InputVideo,
    OutputVideo,
    Image,
}

/// What the front end tells the controller.
#[derive(Debug, PartialEq, Eq)]
pub enum Message {
    Start,
    Mute,
    Rotate,
    ReplaceSound,
    Crop,
    Compress,
    Resize,
    Subtitle,
    Watermark,
    Merge,
    AddCover,
    TextWatermark,
    Landscape,
    DoIt,
    SelectInputVideo,
    InputVideoOpened(Result<String, String>),
    SelectOutputVideo,
    OutputVideoOpened(Result<String, String>),
    SelectImage,
    ImageOpened(Result<String, String>),
    /// The job that `DoIt` asked for has ended.
    JobFinished(JobOutcome),
}

/// What the controller asks of the front end.
#[derive(Clone, Debug, PartialEq, Eq)]
pub enum Effect {
    /// Nothing is to be done.
    Idle,
    /// Show this dialog and send its answer back as the message that
    /// belongs to `target`.
    Pick { request: DialogRequest, target: PickTarget },
    /// Run this job and send its outcome back as `JobFinished`.
    Run(MediaJob),
}

/// The state behind the window.
#[derive(Clone, Debug, PartialEq, Eq)]
pub struct Controller {
    pub value: i64,
    /// The input video, or `-` while none is chosen.
    pub source: String,
    /// The output video, or `-` while none is chosen.
    pub dest: String,
    pub can_image: bool,
    /// The input image, or `-` while none is chosen.
    pub image_input: String,
    /// The completion shown, in hundredths of a percent.
    pub progress: u32,
    /// The name of the operation that `DoIt` carries out.
    pub action: String,
    pub toasts: Vec<Toast>,
}

/// The mathematical value of a `Toast`.
pub struct ToastView {
    pub message: Seq<char>,
    pub kind: ToastKind,
}

/// The mathematical value of a `Message`.
pub enum MessageView {
    Start,
    Mute,
    Rotate,
    ReplaceSound,
    Crop,
    Compress,
    Resize,
    Subtitle,
    Watermark,
    Merge,
    AddCover,
    TextWatermark,
    Landscape,
    DoIt,
    SelectInputVideo,
    InputVideoOpened(Result<Seq<char>, Seq<char>>),
    SelectOutputVideo,
    OutputVideoOpened(Result<Seq<char>, Seq<char>>),
    SelectImage,
    ImageOpened(Result<Seq<char>, Seq<char>>),
    JobFinished(JobOutcomeView),
}

/// The mathematical value of an `Effect`.
pub enum EffectView {
    Idle,
    Pick { request: DialogRequestView, target: PickTarget },
    Run(MediaJobView),
}

/// The mathematical value of a `Controller`.
pub struct ControllerView {
    pub value: i64,
    pub source: Seq<char>,
    pub dest: Seq<char>,
    pub can_image: bool,
    pub image_input: Seq<char>,
    pub progress: u32,
    pub action: Seq<char>,
    pub toasts: Seq<ToastView>,
}

impl View for Toast {
    type V = ToastView;

    open spec fn view(&self) -> ToastView {
        ToastView { message: self.message@, kind: self.kind }
    }
}

/// The mathematical value of a dialog's answer.
pub open spec fn answer_view(r: Result<String, String>) -> Result<Seq<char>, Seq<char>> {
    match r {
        Ok(path) => Ok(path@),
        Err(why) => Err(why@),
    }
}

impl View for Message {
    type V = MessageView;

    open spec fn view(&self) -> MessageView {
        match self {
            Message::Start => MessageView::Start,
            Message::Mute => MessageView::Mute,
            Message::Rotate => MessageView::Rotate,
            Message::ReplaceSound => MessageView::ReplaceSound,
            Message::Crop => MessageView::Crop,
            Message::Compress => MessageView::Compress,
            Message::Resize => MessageView::Resize,
            Message::Subtitle => MessageView::Subtitle,
            Message::Watermark => MessageView::Watermark,
            Message::Merge => MessageView::Merge,
            Message::AddCover => MessageView::AddCover,
            Message::TextWatermark => MessageView::TextWatermark,
            Message::Landscape => MessageView::Landscape,
            Message::DoIt => MessageView::DoIt,
            Message::SelectInputVideo => MessageView::SelectInputVideo,
            Message::InputVideoOpened(r) => MessageView::InputVideoOpened(answer_view(*r)),
            Message::SelectOutputVideo => MessageView::SelectOutputVideo,
            Message::OutputVideoOpened(r) => MessageView::OutputVideoOpened(answer_view(*r)),
            Message::SelectImage => MessageView::SelectImage,
            Message::ImageOpened(r) => MessageView::ImageOpened(answer_view(*r)),
            Message::JobFinished(outcome) => MessageView::JobFinished(outcome@),
        }
    }
}

impl View for Effect {
    type V = EffectView;

    open spec fn view(&self) -> EffectView {
        match self {
            Effect::Idle => EffectView::Idle,
            Effect::Pick { request, target } => EffectView::Pick {
                request: request@,
                target: *target,
            },
            Effect::Run(job) => EffectView::Run(job@),
        }
    }
}

impl View for Controller {
    type V = ControllerView;

    open spec fn view(&self) -> ControllerView {
        ControllerView {
            value: self.value,
            source: self.source@,
            dest: self.dest@,
            can_image: self.can_image,
            image_input: self.image_input@,
            progress: self.progress,
            action: self.action@,
            toasts: self.toasts@.map_values(|t: Toast| t@),
        }
    }
}

/// The state before the first message.
pub open spec fn blank() -> ControllerView {
    ControllerView {
        value: 0,
        source: Seq::empty(),
        dest: Seq::empty(),
        can_image: false,
        image_input: Seq::empty(),
        progress: 0,
        action: Seq::empty(),
        toasts: Seq::empty(),
    }
}

/// The text that stands for a path that has not been chosen.
pub open spec fn unset() -> Seq<char> {
    "-"@
}

/// The extensions offered for videos.
pub open spec fn video_extensions() -> Seq<Seq<char>> {
    seq!["mp4"@, "mkv"@]
}

/// The extensions offered for images.
pub open spec fn image_extensions() -> Seq<Seq<char>> {
    seq!["png"@, "jpg"@]
}

/// The output path for a chosen name: the name itself where it ends in
/// `.mp4`, and else the name with `.mp4` added.
pub open spec fn output_path(chosen: Seq<char>) -> Seq<char> {
    if ends_with(chosen, ".mp4"@) {
        chosen
    } else {
        chosen + ".mp4"@
    }
}

/// The notices that tell which of the two paths of a job are still unset.
pub open spec fn missing_paths(c: ControllerView) -> Seq<ToastView> {
    let input = if c.source == unset() {
        seq![ToastView { message: "Invalid input"@, kind: ToastKind::Error }]
    } else {
        Seq::empty()
    };
    let output = if c.dest == unset() {
        seq![ToastView { message: "Invalid output"@, kind: ToastKind::Error }]
    } else {
        Seq::empty()
    };
    input + output
}

/// The text that an encode error is shown with: what the tool or the
/// operating system said.
pub open spec fn error_text(e: EncodeErrorView) -> Seq<char> {
    match e {
        EncodeErrorView::Launch(why) => why,
        EncodeErrorView::Stream(why) => why,
        EncodeErrorView::Encode(text) => text,
    }
}

/// The state after a job has ended: full progress and a notice of success,
/// or no progress and the error's text; a cancelled job leaves no notice.
pub open spec fn after_job(c: ControllerView, outcome: JobOutcomeView) -> ControllerView {
    match outcome {
        JobOutcomeView::Success => ControllerView {
            progress: FULL,
            toasts: c.toasts.push(
                ToastView { message: "Successfully muted the audio."@, kind: ToastKind::Success },
            ),
            ..c
        },
        JobOutcomeView::Failure(e) => ControllerView {
            progress: 0,
            toasts: c.toasts.push(ToastView { message: error_text(e), kind: ToastKind::Error }),
            ..c
        },
        JobOutcomeView::Cancelled => ControllerView { progress: 0, ..c },
    }
}

/// The state after `message`, and what the front end is to do.
pub open spec fn updated(c: ControllerView, message: MessageView) -> (ControllerView, EffectView) {
    match message {
        MessageView::Start => (
            ControllerView {
                source: unset(),
                dest: unset(),
                image_input: unset(),
                can_image: false,
                action: "mute"@,
                toasts: Seq::empty(),
                ..c
            },
            EffectView::Idle,
        ),
        MessageView::Mute => (
            ControllerView { action: "mute"@, can_image: false, ..c },
            EffectView::Idle,
        ),
        MessageView::Watermark => (ControllerView { can_image: true, ..c }, EffectView::Idle),
        MessageView::DoIt => {
            let cleared = ControllerView { toasts: Seq::empty(), ..c };
            if c.action != "mute"@ {
                (cleared, EffectView::Idle)
            } else if missing_paths(c).len() > 0 {
                (ControllerView { toasts: missing_paths(c), ..c }, EffectView::Idle)
            } else {
                (
                    cleared,
                    EffectView::Run(
                        MediaJobView {
                            input: c.source,
                            output: c.dest,
                            transform: TransformView::Mute,
                            total_units: None,
                        },
                    ),
                )
            }
        },
        MessageView::JobFinished(outcome) => (after_job(c, outcome), EffectView::Idle),
        MessageView::SelectInputVideo => (
            c,
            EffectView::Pick {
                request: dialog_request(DialogKind::Open, video_extensions()),
                target: PickTarget::InputVideo,
            },
        ),
        MessageView::SelectImage => (
            c,
            EffectView::Pick {
                request: dialog_request(DialogKind::Open, image_extensions()),
                target: PickTarget::Image,
            },
        ),
        MessageView::SelectOutputVideo => (
            c,
            EffectView::Pick {
                request: dialog_request(DialogKind::Save, video_extensions()),
                target: PickTarget::OutputVideo,
            },
        ),
        MessageView::InputVideoOpened(Ok(path)) => (
            ControllerView { source: path, ..c },
            EffectView::Idle,
        ),
        MessageView::ImageOpened(Ok(path)) => (
            ControllerView { image_input: path, ..c },
            EffectView::Idle,
        ),
        MessageView::OutputVideoOpened(Ok(path)) => (
            ControllerView { dest: output_path(path), ..c },
            EffectView::Idle,
        ),
        _ => (c, EffectView::Idle),
    }
}

/// The background colour of a notice, as red, green and blue.
pub open spec fn toast_colour(kind: ToastKind) -> (u8, u8, u8) {
    match kind {
        ToastKind::Success => (58u8, 132u8, 0u8),
        ToastKind::Error => (173u8, 0u8, 0u8),
    }
}

/// `DoIt` starts a job only when both paths are set, and a job it starts
/// is the mute of exactly those paths.
pub proof fn lemma_do_it_runs_only_with_paths(c: ControllerView)
    ensures
        updated(c, MessageView::DoIt).1 is Run <==> (c.action == "mute"@ && c.source != unset()
            && c.dest != unset()),
        updated(c, MessageView::DoIt).1 is Run ==> updated(c, MessageView::DoIt).1
            == EffectView::Run(
            MediaJobView {
                input: c.source,
                output: c.dest,
                transform: TransformView::Mute,
                total_units: None,
            },
        ),
{
}

/// An output path that `update` stores always ends in `.mp4`.
pub proof fn lemma_output_path_has_extension(chosen: Seq<char>)
    ensures
        ends_with(output_path(chosen), ".mp4"@),
{
    let ext = ".mp4"@;
    if !ends_with(chosen, ext) {
        let out = chosen + ext;
        assert(out.skip(out.len() - ext.len()) =~= ext);
    }
}

/// The text of an encode error.
pub fn error_message(e: &EncodeError) -> (text: String)
    ensures
        text@ == error_text(e@),
{
    match e {
        EncodeError::Launch(why) => why.clone(),
        EncodeError::Stream(why) => why.clone(),
        EncodeError::Encode(text) => text.clone(),
    }
}

/// The background colour of a notice of the given kind.
pub fn toast_background(kind: ToastKind) -> (rgb: (u8, u8, u8))
    ensures
        rgb == toast_colour(kind),
{
    match kind {
        ToastKind::Success => (58, 132, 0),
        ToastKind::Error => (173, 0, 0),
    }
}

/// The list of the video extensions.
fn video_list() -> (list: Vec<String>)
    ensures
        crate::dialog::strings_view(list@) == video_extensions(),
{
    let mut list: Vec<String> = Vec::new();
    list.push("mp4".to_owned());
    list.push("mkv".to_owned());
    assert(crate::dialog::strings_view(list@) =~= video_extensions());
    list
}

/// The list of the image extensions.
fn image_list() -> (list: Vec<String>)
    ensures
        crate::dialog::strings_view(list@) == image_extensions(),
{
    let mut list: Vec<String> = Vec::new();
    list.push("png".to_owned());
    list.push("jpg".to_owned());
    assert(crate::dialog::strings_view(list@) =~= image_extensions());
    list
}

impl Controller {
    /// The state before the first message, and the message to begin with.
    pub fn new() -> (r: (Controller, Message))
        ensures
            r.0@ == blank(),
            r.1@ == MessageView::Start,
    {
        let c = Controller {
            value: 0,
            source: String::new(),
            dest: String::new(),
            can_image: false,
            image_input: String::new(),
            progress: 0,
            action: String::new(),
            toasts: Vec::new(),
        };
        assert(c@.toasts =~= blank().toasts);
        (c, Message::Start)
    }

    /// Tests whether the image input is shown.
    pub fn can_image(&self) -> (b: bool)
        ensures
            b == self@.can_image,
    {
        self.can_image
    }

    /// Clears the notices.
    fn clear_toasts(&mut self)
        ensures
            final(self)@ == (ControllerView { toasts: Seq::empty(), ..old(self)@ }),
    {
        self.toasts = Vec::new();
        assert(self@.toasts =~= Seq::<ToastView>::empty());
    }

    /// Adds a notice after those that are there.
    fn push_toast(&mut self, message: String, kind: ToastKind)
        ensures
            final(self)@ == (ControllerView {
                toasts: old(self)@.toasts.push(ToastView { message: message@, kind }),
                ..old(self)@
            }),
    {
        self.toasts.push(Toast { message, kind });
        assert(self@.toasts =~= old(self)@.toasts.push(ToastView { message: message@, kind }));
    }

    /// Takes in the outcome of a job.
    fn finish_job(&mut self, outcome: &JobOutcome)
        ensures
            final(self)@ == after_job(old(self)@, outcome@),
    {
        match outcome {
            JobOutcome::Success => {
                self.progress = FULL;
                self.push_toast("Successfully muted the audio.".to_owned(), ToastKind::Success);
            },
            JobOutcome::Failure(e) => {
                self.progress = 0;
                self.push_toast(error_message(e), ToastKind::Error);
            },
            JobOutcome::Cancelled => {
                self.progress = 0;
            },
        }
    }

    /// Carries out `DoIt`: clears the notices, and then either starts the
    /// mute of the chosen paths or says which path is missing.
    fn do_it(&mut self) -> (effect: Effect)
        ensures
            final(self)@ == updated(old(self)@, MessageView::DoIt).0,
            effect@ == updated(old(self)@, MessageView::DoIt).1,
    {
        self.clear_toasts();
        let mute_name = "mute".to_owned();
        if self.action != mute_name {
            return Effect::Idle;
        }
        let dash = "-".to_owned();
        let mut missing = false;
        if self.source == dash {
            self.push_toast("Invalid input".to_owned(), ToastKind::Error);
            missing = true;
        }
        if self.dest == dash {
            self.push_toast("Invalid output".to_owned(), ToastKind::Error);
            missing = true;
        }
        proof {
            assert(self@.toasts =~= missing_paths(old(self)@));
        }
        if missing {
            return Effect::Idle;
        }
        Effect::Run(mute(self.source.as_str(), self.dest.as_str()))
    }

    /// Takes in one message, changes the state and says what the front end
    /// is to do. A dialog that gave no path changes nothing.
    pub fn update(&mut self, message: Message) -> (effect: Effect)
        ensures
            final(self)@ == updated(old(self)@, message@).0,
            effect@ == updated(old(self)@, message@).1,
    {
        match message {
            Message::Start => {
                self.source = "-".to_owned();
                self.dest = "-".to_owned();
                self.image_input = "-".to_owned();
                self.can_image = false;
                self.action = "mute".to_owned();
                self.clear_toasts();
                Effect::Idle
            },
            Message::Mute => {
                self.action = "mute".to_owned();
                self.can_image = false;
                Effect::Idle
            },
            Message::Watermark => {
                self.can_image = true;
                Effect::Idle
            },
            Message::DoIt => self.do_it(),
            Message::JobFinished(outcome) => {
                self.finish_job(&outcome);
                Effect::Idle
            },
            Message::SelectInputVideo => Effect::Pick {
                request: open_file(&video_list()),
                target: PickTarget::InputVideo,
            },
            Message::SelectImage => Effect::Pick {
                request: open_file(&image_list()),
                target: PickTarget::Image,
            },
            Message::SelectOutputVideo => Effect::Pick {
                request: save_file(&video_list()),
                target: PickTarget::OutputVideo,
            },
            Message::InputVideoOpened(Ok(path)) => {
                self.source = path;
                Effect::Idle
            },
            Message::ImageOpened(Ok(path)) => {
                self.image_input = path;
                Effect::Idle
            },
            Message::OutputVideoOpened(Ok(path)) => {
                if str_ends_with(path.as_str(), ".mp4") {
                    self.dest = path;
                } else {
                    self.dest = path.concat(".mp4");
                }
                Effect::Idle
            },
            _ => Effect::Idle,
        }
    }
}

} // verus!
