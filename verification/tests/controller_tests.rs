use ffmpeg_owl::controller::{
    error_message, toast_background, Controller, Effect, Message, PickTarget, Toast, ToastKind,
};
use ffmpeg_owl::dialog::{open_file, save_file};
use ffmpeg_owl::engine::mute;
use ffmpeg_owl::runner::{EncodeError, JobOutcome};

fn strings(items: &[&str]) -> Vec<String> {
    items.iter().map(|s| s.to_string()).collect()
}

fn started() -> Controller {
    let (mut c, first) = Controller::new();
    assert_eq!(c.update(first), Effect::Idle);
    c
}

fn error(text: &str) -> Toast {
    Toast { message: text.to_string(), kind: ToastKind::Error }
}

#[test]
fn new_controller_is_blank_and_begins_with_start() {
    let (c, first) = Controller::new();
    assert_eq!(first, Message::Start);
    assert_eq!(c.value, 0);
    assert_eq!(c.source, "");
    assert_eq!(c.dest, "");
    assert_eq!(c.image_input, "");
    assert_eq!(c.action, "");
    assert_eq!(c.progress, 0);
    assert!(!c.can_image());
    assert!(c.toasts.is_empty());
}

#[test]
fn start_resets_the_paths() {
    let c = started();
    assert_eq!(c.source, "-");
    assert_eq!(c.dest, "-");
    assert_eq!(c.image_input, "-");
    assert_eq!(c.action, "mute");
    assert!(!c.can_image());
    assert!(c.toasts.is_empty());
}

#[test]
fn watermark_shows_the_image_input_and_mute_hides_it() {
    let mut c = started();
    assert_eq!(c.update(Message::Watermark), Effect::Idle);
    assert!(c.can_image());
    assert_eq!(c.update(Message::Mute), Effect::Idle);
    assert!(!c.can_image());
    assert_eq!(c.action, "mute");
}

#[test]
fn other_operations_change_nothing() {
    let messages = [
        Message::Rotate,
        Message::ReplaceSound,
        Message::Crop,
        Message::Compress,
        Message::Resize,
        Message::Subtitle,
        Message::Merge,
        Message::AddCover,
        Message::TextWatermark,
        Message::Landscape,
    ];
    for m in messages {
        let mut c = started();
        let before = c.clone();
        assert_eq!(c.update(m), Effect::Idle);
        assert_eq!(c, before);
    }
}

#[test]
fn do_it_without_paths_names_both() {
    let mut c = started();
    assert_eq!(c.update(Message::DoIt), Effect::Idle);
    assert_eq!(c.toasts, vec![error("Invalid input"), error("Invalid output")]);
}

#[test]
fn do_it_without_output_names_it() {
    let mut c = started();
    c.update(Message::InputVideoOpened(Ok("in.mp4".to_string())));
    assert_eq!(c.update(Message::DoIt), Effect::Idle);
    assert_eq!(c.toasts, vec![error("Invalid output")]);
}

#[test]
fn do_it_without_input_names_it() {
    let mut c = started();
    c.update(Message::OutputVideoOpened(Ok("out.mp4".to_string())));
    assert_eq!(c.update(Message::DoIt), Effect::Idle);
    assert_eq!(c.toasts, vec![error("Invalid input")]);
}

#[test]
fn do_it_with_paths_runs_the_mute() {
    let mut c = started();
    c.update(Message::InputVideoOpened(Ok("in.mp4".to_string())));
    c.update(Message::OutputVideoOpened(Ok("out.mp4".to_string())));
    c.update(Message::DoIt);
    assert_eq!(c.update(Message::DoIt), Effect::Run(mute("in.mp4", "out.mp4")));
    assert!(c.toasts.is_empty());
}

#[test]
fn do_it_clears_old_notices() {
    let mut c = started();
    c.update(Message::DoIt);
    assert_eq!(c.toasts.len(), 2);
    c.update(Message::InputVideoOpened(Ok("in.mp4".to_string())));
    c.update(Message::DoIt);
    assert_eq!(c.toasts, vec![error("Invalid output")]);
}

#[test]
fn do_it_for_another_action_only_clears() {
    let mut c = started();
    c.update(Message::DoIt);
    c.action = "rotate".to_string();
    assert_eq!(c.update(Message::DoIt), Effect::Idle);
    assert!(c.toasts.is_empty());
}

#[test]
fn finished_job_shows_full_progress() {
    let mut c = started();
    assert_eq!(c.update(Message::JobFinished(JobOutcome::Success)), Effect::Idle);
    assert_eq!(c.progress, 10000);
    assert_eq!(
        c.toasts,
        vec![Toast {
            message: "Successfully muted the audio.".to_string(),
            kind: ToastKind::Success
        }]
    );
}

#[test]
fn failed_job_shows_the_diagnostics() {
    let mut c = started();
    c.update(Message::JobFinished(JobOutcome::Success));
    let failure = JobOutcome::Failure(EncodeError::Encode("Unknown encoder".to_string()));
    c.update(Message::JobFinished(failure));
    assert_eq!(c.progress, 0);
    assert_eq!(c.toasts.len(), 2);
    assert_eq!(c.toasts[1], error("Unknown encoder"));
}

#[test]
fn cancelled_job_leaves_no_notice() {
    let mut c = started();
    c.update(Message::JobFinished(JobOutcome::Success));
    c.update(Message::JobFinished(JobOutcome::Cancelled));
    assert_eq!(c.progress, 0);
    assert_eq!(c.toasts.len(), 1);
}

#[test]
fn error_messages() {
    assert_eq!(error_message(&EncodeError::Launch("no ffmpeg".to_string())), "no ffmpeg");
    assert_eq!(error_message(&EncodeError::Stream("broken pipe".to_string())), "broken pipe");
    assert_eq!(error_message(&EncodeError::Encode("bad filter".to_string())), "bad filter");
}

#[test]
fn select_messages_ask_for_dialogs() {
    let mut c = started();
    let before = c.clone();
    assert_eq!(
        c.update(Message::SelectInputVideo),
        Effect::Pick { request: open_file(&strings(&["mp4", "mkv"])), target: PickTarget::InputVideo }
    );
    assert_eq!(
        c.update(Message::SelectImage),
        Effect::Pick { request: open_file(&strings(&["png", "jpg"])), target: PickTarget::Image }
    );
    assert_eq!(
        c.update(Message::SelectOutputVideo),
        Effect::Pick { request: save_file(&strings(&["mp4", "mkv"])), target: PickTarget::OutputVideo }
    );
    assert_eq!(c, before);
}

#[test]
fn opened_files_fill_their_fields() {
    let mut c = started();
    c.update(Message::InputVideoOpened(Ok("/v/in.mkv".to_string())));
    c.update(Message::ImageOpened(Ok("/v/logo.png".to_string())));
    assert_eq!(c.source, "/v/in.mkv");
    assert_eq!(c.image_input, "/v/logo.png");
    assert_eq!(c.dest, "-");
}

#[test]
fn output_gets_the_extension() {
    let mut c = started();
    c.update(Message::OutputVideoOpened(Ok("/v/out".to_string())));
    assert_eq!(c.dest, "/v/out.mp4");
    c.update(Message::OutputVideoOpened(Ok("/v/out.mkv".to_string())));
    assert_eq!(c.dest, "/v/out.mkv.mp4");
    c.update(Message::OutputVideoOpened(Ok("/v/done.mp4".to_string())));
    assert_eq!(c.dest, "/v/done.mp4");
    c.update(Message::OutputVideoOpened(Ok("mp4".to_string())));
    assert_eq!(c.dest, "mp4.mp4");
    c.update(Message::OutputVideoOpened(Ok(".mp4".to_string())));
    assert_eq!(c.dest, ".mp4");
    c.update(Message::OutputVideoOpened(Ok("".to_string())));
    assert_eq!(c.dest, ".mp4");
}

#[test]
fn failed_dialogs_change_nothing() {
    let mut c = started();
    c.update(Message::InputVideoOpened(Ok("in.mp4".to_string())));
    let before = c.clone();
    c.update(Message::InputVideoOpened(Err("No file was selected.".to_string())));
    c.update(Message::OutputVideoOpened(Err("No file was selected.".to_string())));
    c.update(Message::ImageOpened(Err("File path is not valid UTF-8.".to_string())));
    assert_eq!(c, before);
}

#[test]
fn toast_colours() {
    assert_eq!(toast_background(ToastKind::Success), (0x3a, 0x84, 0x00));
    assert_eq!(toast_background(ToastKind::Error), (0xad, 0x00, 0x00));
}
