use ffmpeg_owl::progress::{
    classify_line, percentage, sample_for_line, LineClass, ProgressSample, FULL,
};

#[test]
fn progress_line_gives_the_frame_index() {
    assert_eq!(classify_line("frame=  10 fps=0.0 q=0.0 size=0kB"), LineClass::Progress(10));
    assert_eq!(classify_line("frame=150 fps=25"), LineClass::Progress(150));
    assert_eq!(classify_line("[debug] frame=\t7\n"), LineClass::Progress(7));
    assert_eq!(classify_line("frame=300"), LineClass::Progress(300));
    assert_eq!(classify_line("frame=300\n"), LineClass::Progress(300));
}

#[test]
fn line_without_marker_is_no_match() {
    assert_eq!(classify_line(""), LineClass::NoMatch);
    assert_eq!(classify_line("Stream #0:0: Video: h264"), LineClass::NoMatch);
    assert_eq!(classify_line("frame 10"), LineClass::NoMatch);
    assert_eq!(classify_line("Frame=10"), LineClass::NoMatch);
    assert_eq!(classify_line("frame"), LineClass::NoMatch);
}

#[test]
fn marker_without_number_is_malformed() {
    assert_eq!(classify_line("frame="), LineClass::Malformed);
    assert_eq!(classify_line("frame=   \n"), LineClass::Malformed);
    assert_eq!(classify_line("frame=abc fps=1"), LineClass::Malformed);
    assert_eq!(classify_line("frame=10fps"), LineClass::Malformed);
    assert_eq!(classify_line("frame=-3 "), LineClass::Malformed);
    assert_eq!(classify_line("frame=99999999999999999999 "), LineClass::Malformed);
}

#[test]
fn only_the_leftmost_marker_counts() {
    assert_eq!(classify_line("frame=5 frame=9"), LineClass::Progress(5));
    assert_eq!(classify_line("frame=x frame=10 "), LineClass::Malformed);
    assert_eq!(classify_line("keyframe=1 frame=2"), LineClass::Progress(1));
}

#[test]
fn marker_after_other_text_and_wide_characters() {
    assert_eq!(classify_line("é→ frame= 12 ü"), LineClass::Progress(12));
}

#[test]
fn percentage_exact_values() {
    assert_eq!(percentage(10, 300), 333);
    assert_eq!(percentage(150, 300), 5000);
    assert_eq!(percentage(300, 300), 10000);
    assert_eq!(percentage(0, 300), 0);
    assert_eq!(percentage(1, 3), 3333);
    assert_eq!(percentage(2, 3), 6666);
    assert_eq!(percentage(299, 300), 9966);
}

#[test]
fn percentage_is_clamped() {
    assert_eq!(FULL, 10000);
    assert_eq!(percentage(301, 300), FULL);
    assert_eq!(percentage(u64::MAX, 1), FULL);
    assert_eq!(percentage(u64::MAX - 1, u64::MAX), 9999);
    assert_eq!(percentage(5, 0), FULL);
    assert_eq!(percentage(0, 0), FULL);
}

#[test]
fn percentage_never_decreases() {
    let total = 97;
    let mut last = 0;
    for current in 0..200u64 {
        let p = percentage(current, total);
        assert!(p >= last);
        assert!(p <= FULL);
        last = p;
    }
}

#[test]
fn percentage_matches_the_quotient() {
    for (current, total) in [(10u64, 300u64), (150, 300), (300, 300), (7, 9)] {
        let exact = current as f64 / total as f64 * 100.0;
        let got = percentage(current, total) as f64 / 100.0;
        assert!(got <= exact + 1e-9 && exact - got < 0.01);
    }
}

#[test]
fn sample_with_known_total() {
    assert_eq!(
        sample_for_line("frame=  150 fps=30", Some(300)),
        Some(ProgressSample { current: 150, percentage: Some(5000) })
    );
}

#[test]
fn sample_with_unknown_total_has_no_percentage() {
    assert_eq!(
        sample_for_line("frame=  150 fps=30", None),
        Some(ProgressSample { current: 150, percentage: None })
    );
}

#[test]
fn no_sample_for_other_lines() {
    assert_eq!(sample_for_line("Press [q] to stop", Some(300)), None);
    assert_eq!(sample_for_line("frame=oops", Some(300)), None);
}
