use ffmpeg_owl::engine::{probe_invocation, Invocation};
use ffmpeg_owl::probe::{parse_frame_count, probe_total_units, ProbeError, ToolRun};

fn exited(success: bool, stdout: &str, stderr: &str) -> ToolRun {
    ToolRun::Exited { success, stdout: stdout.to_string(), stderr: stderr.to_string() }
}

#[test]
fn probe_reports_three_hundred_frames() {
    assert_eq!(probe_total_units(&exited(true, "300\n", "")), Ok(300));
}

#[test]
fn frame_count_with_surrounding_whitespace() {
    assert_eq!(parse_frame_count("300"), Ok(300));
    assert_eq!(parse_frame_count("  300\r\n"), Ok(300));
    assert_eq!(parse_frame_count("\t\n 42 \u{3000}\u{a0}"), Ok(42));
    assert_eq!(parse_frame_count("0"), Ok(0));
    assert_eq!(parse_frame_count("007"), Ok(7));
}

#[test]
fn frame_count_accepts_a_plus_sign() {
    assert_eq!(parse_frame_count("+15\n"), Ok(15));
}

#[test]
fn frame_count_at_the_limit() {
    assert_eq!(parse_frame_count("18446744073709551615"), Ok(u64::MAX));
    assert_eq!(parse_frame_count("18446744073709551616"), Err(ProbeError::Parse));
    assert_eq!(parse_frame_count("99999999999999999999999999"), Err(ProbeError::Parse));
}

#[test]
fn frame_count_agrees_with_the_standard_parser() {
    let samples = [
        "", " ", "1", "+1", "-1", "+", "-", "++1", "1 2", "12a", "a12", " 9 ", "\n", "0x10",
        "1_000", "١٢٣", "3.5", "+0", "-0", "00000000000000000000000001",
    ];
    for s in samples {
        let expected = s.trim().parse::<u64>().ok();
        assert_eq!(parse_frame_count(s).ok(), expected, "input {:?}", s);
    }
}

#[test]
fn malformed_frame_count_is_a_parse_error() {
    assert_eq!(parse_frame_count(""), Err(ProbeError::Parse));
    assert_eq!(parse_frame_count("   \n"), Err(ProbeError::Parse));
    assert_eq!(parse_frame_count("abc"), Err(ProbeError::Parse));
    assert_eq!(parse_frame_count("-5"), Err(ProbeError::Parse));
    assert_eq!(parse_frame_count("12 frames"), Err(ProbeError::Parse));
    assert_eq!(parse_frame_count("3.0"), Err(ProbeError::Parse));
}

#[test]
fn probe_that_succeeds_with_bad_output_is_a_parse_error() {
    assert_eq!(probe_total_units(&exited(true, "", "")), Err(ProbeError::Parse));
    assert_eq!(probe_total_units(&exited(true, "n/a\n", "ignored")), Err(ProbeError::Parse));
}

#[test]
fn probe_that_fails_carries_the_diagnostics() {
    assert_eq!(
        probe_total_units(&exited(false, "300\n", "file not found")),
        Err(ProbeError::Probe("file not found".to_string()))
    );
}

#[test]
fn probe_that_cannot_start_is_a_launch_error() {
    assert_eq!(
        probe_total_units(&ToolRun::Unlaunched("No such file or directory".to_string())),
        Err(ProbeError::Launch("No such file or directory".to_string()))
    );
}

#[test]
fn probe_command_line() {
    assert_eq!(
        probe_invocation("clip.mp4"),
        Invocation {
            program: "mediainfo".to_string(),
            arguments: vec!["--Output=Video;%FrameCount%".to_string(), "clip.mp4".to_string()],
        }
    );
}
