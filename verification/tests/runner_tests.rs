use ffmpeg_owl::engine::{encoder_invocation, mute, rotate, Invocation, MediaJob, Transform};
use ffmpeg_owl::progress::ProgressSample;
use ffmpeg_owl::runner::{
    run_transform, Action, EncodeError, Event, JobOutcome, Phase, Runner, Transcript,
};

fn strings(items: &[&str]) -> Vec<String> {
    items.iter().map(|s| s.to_string()).collect()
}

fn exited(success: bool, diagnostics: &str) -> Event {
    Event::Exited { success, diagnostics: diagnostics.to_string() }
}

fn line(text: &str) -> Event {
    Event::Line(text.to_string())
}

#[test]
fn mute_job_and_command_line() {
    let job = mute("in.mp4", "out.mp4");
    assert_eq!(
        job,
        MediaJob {
            input: "in.mp4".to_string(),
            output: "out.mp4".to_string(),
            transform: Transform::Mute,
            total_units: None,
        }
    );
    assert_eq!(
        encoder_invocation(&job),
        Invocation {
            program: "ffmpeg".to_string(),
            arguments: strings(&["-i", "in.mp4", "-c", "copy", "-an", "out.mp4", "-y"]),
        }
    );
}

#[test]
fn rotate_job_and_command_line() {
    let job = rotate("in.mp4", "out.mp4", "transpose=1", Some(300));
    assert_eq!(job.transform, Transform::Filter("transpose=1".to_string()));
    assert_eq!(job.total_units, Some(300));
    assert_eq!(
        encoder_invocation(&job),
        Invocation {
            program: "ffmpeg".to_string(),
            arguments: strings(&[
                "-i", "in.mp4", "-vf", "transpose=1", "-loglevel", "debug", "out.mp4", "-y",
            ]),
        }
    );
}

#[test]
fn streamed_run_reports_samples_then_success() {
    let job = rotate("in.mp4", "out.mp4", "transpose=1", Some(300));
    let events = vec![
        Event::Start,
        Event::Spawned,
        line("ffmpeg version 6.0\n"),
        line("frame=  10 fps=0.0 q=0.0\n"),
        line("frame=  150 fps=25 q=28.0\n"),
        line("frame=broken\n"),
        line("frame=  300 fps=25 q=28.0\n"),
        Event::EndOfStream,
        exited(true, ""),
    ];
    let transcript = run_transform(job, &events);
    assert_eq!(
        transcript,
        Transcript {
            samples: vec![
                ProgressSample { current: 10, percentage: Some(333) },
                ProgressSample { current: 150, percentage: Some(5000) },
                ProgressSample { current: 300, percentage: Some(10000) },
            ],
            outcome: Some(JobOutcome::Success),
        }
    );
    let shown: Vec<f64> =
        transcript.samples.iter().map(|s| s.percentage.unwrap() as f64 / 100.0).collect();
    assert!((shown[0] - 3.33).abs() < 1e-9);
    assert!((shown[1] - 50.0).abs() < 1e-9);
    assert!((shown[2] - 100.0).abs() < 1e-9);
}

#[test]
fn failed_encode_carries_the_diagnostics() {
    let job = rotate("in.mp4", "out.mp4", "transpose=1", Some(300));
    let events = vec![Event::Start, Event::Spawned, Event::EndOfStream, exited(false, "Unknown encoder")];
    assert_eq!(
        run_transform(job, &events),
        Transcript {
            samples: vec![],
            outcome: Some(JobOutcome::Failure(EncodeError::Encode("Unknown encoder".to_string()))),
        }
    );
}

#[test]
fn failed_encode_carries_the_lines_read() {
    let job = rotate("in.mp4", "out.mp4", "transpose=1", Some(300));
    let events = vec![
        Event::Start,
        Event::Spawned,
        line("frame= 3 fps=1\n"),
        line("Unknown encoder\n"),
        Event::EndOfStream,
        exited(false, "Conversion failed!"),
    ];
    let t = run_transform(job, &events);
    assert_eq!(t.samples, vec![ProgressSample { current: 3, percentage: Some(100) }]);
    assert_eq!(
        t.outcome,
        Some(JobOutcome::Failure(EncodeError::Encode(
            "frame= 3 fps=1\nUnknown encoder\nConversion failed!".to_string()
        )))
    );
}

#[test]
fn failed_encode_with_one_diagnostic_line() {
    let job = rotate("in.mp4", "out.mp4", "transpose=1", None);
    let events =
        vec![Event::Start, Event::Spawned, line("Unknown encoder"), Event::EndOfStream, exited(false, "")];
    assert_eq!(
        run_transform(job, &events).outcome,
        Some(JobOutcome::Failure(EncodeError::Encode("Unknown encoder".to_string())))
    );
}

#[test]
fn missing_encoder_is_a_launch_error() {
    let job = rotate("in.mp4", "out.mp4", "transpose=1", None);
    let mut runner = Runner::new(job);
    assert_eq!(runner.phase(), Phase::Ready);
    assert!(matches!(runner.step(&Event::Start), Action::Spawn(_)));
    assert_eq!(runner.phase(), Phase::Starting);
    let action = runner.step(&Event::SpawnFailed("program not found".to_string()));
    assert_eq!(
        action,
        Action::Finish(JobOutcome::Failure(EncodeError::Launch("program not found".to_string())))
    );
    assert!(runner.is_finished());
    assert_eq!(runner.step(&Event::Spawned), Action::Ignore);
    assert_eq!(runner.step(&line("frame=1 ")), Action::Ignore);
    assert_eq!(runner.step(&exited(true, "")), Action::Ignore);
    assert!(runner.is_finished());
}

#[test]
fn mute_run_skips_the_stream() {
    let mut runner = Runner::new(mute("in.mp4", "out.mp4"));
    assert_eq!(
        runner.step(&Event::Start),
        Action::Spawn(Invocation {
            program: "ffmpeg".to_string(),
            arguments: strings(&["-i", "in.mp4", "-c", "copy", "-an", "out.mp4", "-y"]),
        })
    );
    assert_eq!(runner.step(&Event::Spawned), Action::Wait);
    assert_eq!(runner.phase(), Phase::Reaping);
    assert_eq!(runner.step(&line("frame=1 ")), Action::Ignore);
    assert_eq!(runner.step(&exited(true, "")), Action::Finish(JobOutcome::Success));
    assert!(runner.is_finished());
}

#[test]
fn mute_run_twice_ends_the_same_way() {
    let events = vec![Event::Start, Event::Spawned, exited(true, "")];
    let first = run_transform(mute("in.mp4", "out.mp4"), &events);
    let second = run_transform(mute("in.mp4", "out.mp4"), &events);
    assert_eq!(first, second);
    assert_eq!(first.outcome, Some(JobOutcome::Success));
    let inv = encoder_invocation(&mute("in.mp4", "out.mp4"));
    assert_eq!(inv.arguments.last().map(|s| s.as_str()), Some("-y"));
}

#[test]
fn mute_failure_carries_the_diagnostics() {
    let events = vec![Event::Start, Event::Spawned, exited(false, "Permission denied")];
    assert_eq!(
        run_transform(mute("a", "b"), &events).outcome,
        Some(JobOutcome::Failure(EncodeError::Encode("Permission denied".to_string())))
    );
}

#[test]
fn read_failure_still_reaps_the_child() {
    let mut runner = Runner::new(rotate("a", "b", "hflip", Some(10)));
    runner.step(&Event::Start);
    assert_eq!(runner.step(&Event::Spawned), Action::ReadLine);
    assert_eq!(
        runner.step(&line("frame= 5 ")),
        Action::Report(ProgressSample { current: 5, percentage: Some(5000) })
    );
    assert_eq!(runner.step(&Event::ReadFailed("broken pipe".to_string())), Action::Wait);
    assert_eq!(runner.phase(), Phase::Reaping);
    assert_eq!(
        runner.step(&exited(true, "")),
        Action::Finish(JobOutcome::Failure(EncodeError::Stream("broken pipe".to_string())))
    );
}

#[test]
fn unknown_total_reports_the_index_alone() {
    let events = vec![Event::Start, Event::Spawned, line("frame= 5 "), Event::EndOfStream, exited(true, "")];
    assert_eq!(
        run_transform(rotate("a", "b", "hflip", None), &events).samples,
        vec![ProgressSample { current: 5, percentage: None }]
    );
}

#[test]
fn repeated_and_lower_indices_pass_through() {
    let events = vec![
        Event::Start,
        Event::Spawned,
        line("frame= 8 "),
        line("frame= 8 "),
        line("frame= 4 "),
        Event::EndOfStream,
        exited(true, ""),
    ];
    let got: Vec<u64> = run_transform(rotate("a", "b", "hflip", Some(8)), &events)
        .samples
        .iter()
        .map(|s| s.current)
        .collect();
    assert_eq!(got, vec![8, 8, 4]);
}

#[test]
fn cancel_while_streaming() {
    let mut runner = Runner::new(rotate("a", "b", "hflip", Some(10)));
    runner.step(&Event::Start);
    runner.step(&Event::Spawned);
    assert_eq!(runner.step(&Event::Cancel), Action::Terminate);
    assert_eq!(runner.step(&Event::EndOfStream), Action::Ignore);
    assert_eq!(runner.step(&exited(false, "killed")), Action::Finish(JobOutcome::Cancelled));
    assert!(runner.is_finished());
}

#[test]
fn cancel_before_start_is_ignored() {
    let mut runner = Runner::new(mute("a", "b"));
    assert_eq!(runner.step(&Event::Cancel), Action::Ignore);
    assert_eq!(runner.phase(), Phase::Ready);
}

#[test]
fn events_after_the_outcome_are_not_looked_at() {
    let events = vec![
        Event::Start,
        Event::SpawnFailed("missing".to_string()),
        Event::Spawned,
        line("frame= 1 "),
    ];
    let t = run_transform(rotate("a", "b", "hflip", Some(10)), &events);
    assert_eq!(t.samples, vec![]);
    assert_eq!(t.outcome, Some(JobOutcome::Failure(EncodeError::Launch("missing".to_string()))));
}

#[test]
fn run_without_exit_has_no_outcome() {
    let events = vec![Event::Start, Event::Spawned, line("frame= 1 ")];
    let t = run_transform(rotate("a", "b", "hflip", Some(4)), &events);
    assert_eq!(t.samples, vec![ProgressSample { current: 1, percentage: Some(2500) }]);
    assert_eq!(t.outcome, None);
}
