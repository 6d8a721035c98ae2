use border_crop::directive::scan_for_directive;
use border_crop::errors::PipelineError;
use border_crop::geometry::CropBox;
use border_crop::pipeline::accelerated_crop_args;
use border_crop::pipeline::detect_outcome;
use border_crop::pipeline::diagnostic_args;
use border_crop::pipeline::pipeline_step;
use border_crop::pipeline::software_crop_args;
use border_crop::pipeline::CropOutcome;
use border_crop::pipeline::PipelineAction;
use border_crop::pipeline::PipelineConfig;
use border_crop::pipeline::PipelineEvent;
use border_crop::pipeline::PipelineState;
use border_crop::pipeline::ScanMode;
use border_crop::pipeline::Strategy;

fn b(s: &str) -> Vec<u8> {
    s.as_bytes().to_vec()
}

fn lines(ls: &[&str]) -> Vec<Vec<u8>> {
    ls.iter().map(|l| b(l)).collect()
}

const DIRECTIVE: &str = "[Parsed_cropdetect_0 @ 0x55aa] x1:10 x2:1270 y1:8 y2:712 w:1260 h:704 x:10 y:8 pts:100 t:4.17 crop=1260:704:10:8";

const EARLIER_DIRECTIVE: &str = "[Parsed_cropdetect_0 @ 0x55aa] x1:0 x2:1279 y1:0 y2:719 w:1280 h:720 x:0 y:0 pts:50 t:2.08 crop=1280:720:0:0";

fn config(strategy: Strategy) -> PipelineConfig {
    PipelineConfig {
        input: b("clip.mp4"),
        output: b("clip-CROPPED.mp4"),
        scratch: b("scratch-1.mp4"),
        scan: ScanMode::Bounded { start_seconds: 1, frame_count: 10 },
        strategy,
        top_pad: 2,
    }
}

#[test]
fn stream_without_directives_yields_no_borders() {
    let ls = lines(&["frame=  100", "size= 2048kB", "video:1983kB audio:0kB"]);
    assert_eq!(scan_for_directive(&ls), None);
    assert_eq!(detect_outcome(&ls), Ok(CropOutcome::NoBordersDetected));
}

#[test]
fn empty_stream_yields_no_borders() {
    let ls: Vec<Vec<u8>> = Vec::new();
    assert_eq!(detect_outcome(&ls), Ok(CropOutcome::NoBordersDetected));
}

#[test]
fn last_matching_line_wins() {
    let ls = lines(&[
        "frame=  100",
        EARLIER_DIRECTIVE,
        "size= 2048kB",
        DIRECTIVE,
        "video:1983kB audio:0kB",
    ]);
    assert_eq!(scan_for_directive(&ls), Some(b(DIRECTIVE)));
    assert_eq!(
        detect_outcome(&ls),
        Ok(CropOutcome::BordersDetected(CropBox { x1: 10, y1: 8, x2: 1270, y2: 712 }))
    );
}

#[test]
fn malformed_retained_directive_is_a_parse_error() {
    let ls = lines(&["[Parsed_cropdetect_0 @ 0x55aa] x1:10"]);
    assert_eq!(detect_outcome(&ls), Err(PipelineError::ParseError));
}

#[test]
fn bounded_scan_diagnostic_invocation() {
    let args = diagnostic_args(&config(Strategy::Software));
    let expected: Vec<Vec<u8>> = lines(&[
        "-ss",
        "1",
        "-i",
        "clip.mp4",
        "-vframes",
        "10",
        "-vf",
        "cropdetect=18:2:0",
        "-y",
        "scratch-1.mp4",
    ]);
    assert_eq!(args, expected);
}

#[test]
fn full_scan_diagnostic_invocation() {
    let mut cfg = config(Strategy::Software);
    cfg.scan = ScanMode::Full;
    let args = diagnostic_args(&cfg);
    let expected: Vec<Vec<u8>> =
        lines(&["-i", "clip.mp4", "-vf", "cropdetect=18:2:0", "-y", "scratch-1.mp4"]);
    assert_eq!(args, expected);
}

#[test]
fn software_crop_invocation_uses_the_filter_verbatim() {
    let args = software_crop_args(&config(Strategy::Software), &b("crop=1260:704:10:8"));
    let expected: Vec<Vec<u8>> =
        lines(&["-i", "clip.mp4", "-vf", "crop=1260:704:10:8", "clip-CROPPED.mp4"]);
    assert_eq!(args, expected);
}

#[test]
fn accelerated_crop_invocation_uses_margins() {
    let m = border_crop::geometry::Margins { top: 10, bottom: 8, left: 10, right: 10 };
    let args = accelerated_crop_args(&config(Strategy::Accelerated), &m);
    let expected: Vec<Vec<u8>> = lines(&[
        "-hwaccel",
        "cuvid",
        "-c:v",
        "h264_cuvid",
        "-crop",
        "10x8x10x10",
        "-i",
        "clip.mp4",
        "-c:v",
        "h264_nvenc",
        "-qp",
        "30",
        "-y",
        "clip-CROPPED.mp4",
    ]);
    assert_eq!(args, expected);
}

#[test]
fn software_path_end_to_end() {
    let cfg = config(Strategy::Software);
    let (state, action) = pipeline_step(&cfg, &PipelineState::Idle, PipelineEvent::Start);
    assert_eq!(state, PipelineState::Detecting);
    match action {
        PipelineAction::RunDiagnostic { args } => {
            assert_eq!(args, diagnostic_args(&cfg));
        },
        _ => panic!("expected a diagnostic run"),
    }

    let stream = lines(&["frame=  100", DIRECTIVE, "video:1983kB audio:0kB"]);
    let (state, action) =
        pipeline_step(&cfg, &state, PipelineEvent::DiagnosticFinished { lines: stream, success: true });
    assert_eq!(state, PipelineState::Cropping);
    match action {
        PipelineAction::RunTranscode { args } => {
            let expected: Vec<Vec<u8>> =
                lines(&["-i", "clip.mp4", "-vf", "crop=1260:704:10:8", "clip-CROPPED.mp4"]);
            assert_eq!(args, expected);
        },
        _ => panic!("expected a transcode"),
    }

    let (state, action) =
        pipeline_step(&cfg, &state, PipelineEvent::TranscodeFinished { success: true });
    assert_eq!(state, PipelineState::Done { cropped: true });
    assert!(matches!(action, PipelineAction::Stop));
}

#[test]
fn accelerated_path_end_to_end() {
    let cfg = config(Strategy::Accelerated);
    let (state, _) = pipeline_step(&cfg, &PipelineState::Idle, PipelineEvent::Start);

    let stream = lines(&["frame=  100", DIRECTIVE]);
    let (state, action) =
        pipeline_step(&cfg, &state, PipelineEvent::DiagnosticFinished { lines: stream, success: true });
    assert_eq!(
        state,
        PipelineState::Resolving { crop: CropBox { x1: 10, y1: 8, x2: 1270, y2: 712 } }
    );
    assert!(matches!(action, PipelineAction::ProbeDimensions));

    let (state, action) =
        pipeline_step(&cfg, &state, PipelineEvent::ProbeFinished { line: b("1280x720") });
    assert_eq!(state, PipelineState::Cropping);
    match action {
        PipelineAction::RunTranscode { args } => {
            assert_eq!(args[5], b("10x8x10x10"));
            assert_eq!(args.len(), 14);
        },
        _ => panic!("expected a transcode"),
    }

    let (state, action) =
        pipeline_step(&cfg, &state, PipelineEvent::TranscodeFinished { success: true });
    assert_eq!(state, PipelineState::Done { cropped: true });
    assert!(matches!(action, PipelineAction::Stop));
}

#[test]
fn no_borders_ends_the_run_without_output() {
    let cfg = config(Strategy::Software);
    let stream = lines(&["frame=  100", "size= 2048kB"]);
    let (state, action) = pipeline_step(
        &cfg,
        &PipelineState::Detecting,
        PipelineEvent::DiagnosticFinished { lines: stream, success: true },
    );
    assert_eq!(state, PipelineState::Done { cropped: false });
    assert!(matches!(action, PipelineAction::ReportNoBorders));
}

#[test]
fn malformed_directive_aborts_before_cropping() {
    let cfg = config(Strategy::Accelerated);
    let stream = lines(&["[Parsed_cropdetect_0 @ 0x55aa] x1:10"]);
    let (state, action) = pipeline_step(
        &cfg,
        &PipelineState::Detecting,
        PipelineEvent::DiagnosticFinished { lines: stream, success: true },
    );
    assert_eq!(state, PipelineState::Aborted { error: PipelineError::ParseError });
    assert!(matches!(action, PipelineAction::Stop));
}

#[test]
fn failed_diagnostic_exit_aborts_even_with_directives() {
    let cfg = config(Strategy::Software);
    let stream = lines(&["frame=  100", DIRECTIVE]);
    let (state, action) = pipeline_step(
        &cfg,
        &PipelineState::Detecting,
        PipelineEvent::DiagnosticFinished { lines: stream, success: false },
    );
    assert_eq!(state, PipelineState::Aborted { error: PipelineError::DiagnosticExitError });
    assert!(matches!(action, PipelineAction::Stop));
}

#[test]
fn spawn_and_capture_failures_abort() {
    let cfg = config(Strategy::Software);
    let (state, _) = pipeline_step(
        &cfg,
        &PipelineState::Detecting,
        PipelineEvent::DiagnosticFailed { error: PipelineError::ProcessSpawnError },
    );
    assert_eq!(state, PipelineState::Aborted { error: PipelineError::ProcessSpawnError });
    let (state, _) = pipeline_step(
        &cfg,
        &PipelineState::Detecting,
        PipelineEvent::DiagnosticFailed { error: PipelineError::StreamCaptureError },
    );
    assert_eq!(state, PipelineState::Aborted { error: PipelineError::StreamCaptureError });
}

#[test]
fn probe_failure_aborts() {
    let cfg = config(Strategy::Accelerated);
    let resolving = PipelineState::Resolving { crop: CropBox { x1: 10, y1: 8, x2: 1270, y2: 712 } };
    let (state, _) = pipeline_step(&cfg, &resolving, PipelineEvent::ProbeFailed);
    assert_eq!(state, PipelineState::Aborted { error: PipelineError::DimensionProbeError });
}

#[test]
fn bad_probe_line_aborts() {
    let cfg = config(Strategy::Accelerated);
    let resolving = PipelineState::Resolving { crop: CropBox { x1: 10, y1: 8, x2: 1270, y2: 712 } };
    let (state, _) =
        pipeline_step(&cfg, &resolving, PipelineEvent::ProbeFinished { line: b("1280") });
    assert_eq!(state, PipelineState::Aborted { error: PipelineError::NumericConversionError });
}

#[test]
fn inconsistent_probe_data_aborts() {
    let cfg = config(Strategy::Accelerated);
    // The detector reports a rectangle wider than the probed frame.
    let resolving = PipelineState::Resolving { crop: CropBox { x1: 10, y1: 8, x2: 1470, y2: 712 } };
    let (state, _) =
        pipeline_step(&cfg, &resolving, PipelineEvent::ProbeFinished { line: b("1280x720") });
    assert_eq!(state, PipelineState::Aborted { error: PipelineError::MarginRangeError });
}

#[test]
fn transcoder_failure_aborts() {
    let cfg = config(Strategy::Software);
    let (state, _) = pipeline_step(
        &cfg,
        &PipelineState::Cropping,
        PipelineEvent::TranscodeFinished { success: false },
    );
    assert_eq!(state, PipelineState::Aborted { error: PipelineError::TranscodeError });
}

#[test]
fn mismatched_events_leave_the_state_alone() {
    let cfg = config(Strategy::Software);
    let (state, action) = pipeline_step(&cfg, &PipelineState::Idle, PipelineEvent::ProbeFailed);
    assert_eq!(state, PipelineState::Idle);
    assert!(matches!(action, PipelineAction::Stop));
    let (state, action) = pipeline_step(
        &cfg,
        &PipelineState::Done { cropped: true },
        PipelineEvent::Start,
    );
    assert_eq!(state, PipelineState::Done { cropped: true });
    assert!(matches!(action, PipelineAction::Stop));
}
