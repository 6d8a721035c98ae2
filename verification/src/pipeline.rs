//! The border-removal pipeline: a state machine that orchestrates the
//! diagnostic pass, directive retention, rectangle extraction, dimension
//! probing, margin resolution and the final crop invocation.
//!
//! All external work is the caller's: the caller performs each returned
//! action (spawning the detection pass, probing dimensions, transcoding)
//! and feeds the result back as the next event.  Every decision between
//! two external invocations is made here, so a failure in detection or
//! resolution aborts the run before any destructive cropping starts.

use vstd::prelude::*;

use crate::directive::is_directive;
use crate::directive::last_match;
use crate::directive::lemma_no_directive_no_match;
use crate::directive::scan_for_directive;
use crate::errors::PipelineError;
use crate::geometry::extract_crop_box;
use crate::geometry::extract_filter_token;
use crate::geometry::format_margins;
use crate::geometry::parse_dimensions;
use crate::geometry::resolve_margins;
use crate::geometry::spec_crop_box;
use crate::geometry::spec_dimensions;
use crate::geometry::spec_filter_token;
use crate::geometry::spec_margin_text;
use crate::geometry::spec_margins;
use crate::geometry::CropBox;
use crate::geometry::Margins;
use crate::text::copy_bytes;
use crate::text::dec_digits;
use crate::text::render_u32;

verus! {

/// How much of the input the diagnostic pass analyzes.
#[derive(Clone, Copy, Debug, PartialEq, Eq, Structural)]
pub enum ScanMode {
    /// Analyze every frame of the input.
    Full,
    /// Seek to a fixed offset and analyze a fixed small number of frames.
    /// Faster, but it assumes borders are stable throughout the video:
    /// unsound for content whose borders change over time, a known and
    /// accepted limitation.
    Bounded { start_seconds: u32, frame_count: u32 },
}

/// Which crop strategy drives the final invocation.
#[derive(Clone, Copy, Debug, PartialEq, Eq, Structural)]
pub enum Strategy {
    /// A software crop filter built from the directive's filter expression.
    Software,
    /// A hardware-accelerated crop driven by per-side margins.
    Accelerated,
}

/// One pipeline run's fixed inputs: paths, sampling bounds and the top pad.
pub struct PipelineConfig {
    /// Path of the input media file.
    pub input: Vec<u8>,
    /// Path of the cropped output file.
    pub output: Vec<u8>,
    /// Path of the throwaway scratch file the diagnostic pass overwrites.
    /// Callers should pick a unique temporary name per run: a fixed shared
    /// name races between concurrent runs.
    pub scratch: Vec<u8>,
    pub scan: ScanMode,
    pub strategy: Strategy,
    /// Pixels added to the top margin, `DEFAULT_TOP_PAD` unless overridden.
    pub top_pad: u32,
}

/// The outcome of the detection phase: the contract boundary between
/// detection and the two downstream crop strategies.
#[derive(Clone, Copy, Debug, PartialEq, Eq, Structural)]
pub enum CropOutcome {
    /// The diagnostic stream held no directive: a valid terminal outcome,
    /// the run ends with no output file and no error.
    NoBordersDetected,
    /// The rectangle of the last retained directive.
    BordersDetected(CropBox),
}

/// What the detection phase yields on a captured stream: the rectangle of
/// the last directive, `NoBordersDetected` on an empty fold, or a parse
/// failure on a malformed retained directive.
pub open spec fn spec_detect(ls: Seq<Seq<u8>>) -> Result<CropOutcome, PipelineError> {
    match last_match(ls) {
        None => Ok(CropOutcome::NoBordersDetected),
        Some(d) => match spec_crop_box(d) {
            Some(cb) => Ok(CropOutcome::BordersDetected(cb)),
            None => Err(PipelineError::ParseError),
        },
    }
}

/// Runs the detection phase over the captured diagnostic lines: folds the
/// stream to the last directive and extracts its rectangle.
pub fn detect_outcome(lines: &Vec<Vec<u8>>) -> (r: Result<CropOutcome, PipelineError>)
    ensures
        r == spec_detect(lines.deep_view()),
{
    match scan_for_directive(lines) {
        None => Ok(CropOutcome::NoBordersDetected),
        Some(d) => match extract_crop_box(&d) {
            Ok(cb) => Ok(CropOutcome::BordersDetected(cb)),
            Err(e) => Err(e),
        },
    }
}

/// For every sequence of diagnostic lines of which none is a directive,
/// the detection phase's outcome is `NoBordersDetected` — never an error.
pub proof fn lemma_no_directive_outcome(ls: Seq<Seq<u8>>)
    requires
        forall|i: int| 0 <= i < ls.len() ==> !is_directive(#[trigger] ls[i]),
    ensures
        spec_detect(ls) == Ok::<CropOutcome, PipelineError>(CropOutcome::NoBordersDetected),
{
    lemma_no_directive_no_match(ls);
}

pub open spec fn lit_i() -> Seq<u8> {
    seq!['-' as u8, 'i' as u8]
}

pub open spec fn lit_vf() -> Seq<u8> {
    seq!['-' as u8, 'v' as u8, 'f' as u8]
}

pub open spec fn lit_y() -> Seq<u8> {
    seq!['-' as u8, 'y' as u8]
}

pub open spec fn lit_ss() -> Seq<u8> {
    seq!['-' as u8, 's' as u8, 's' as u8]
}

pub open spec fn lit_vframes() -> Seq<u8> {
    seq!['-' as u8, 'v' as u8, 'f' as u8, 'r' as u8, 'a' as u8, 'm' as u8, 'e' as u8, 's' as u8]
}

/// The border-detection filter with its fixed sensitivity and threshold
/// constants, spelled `cropdetect=18:2:0`.
pub open spec fn lit_cropdetect() -> Seq<u8> {
    seq![
        'c' as u8,
        'r' as u8,
        'o' as u8,
        'p' as u8,
        'd' as u8,
        'e' as u8,
        't' as u8,
        'e' as u8,
        'c' as u8,
        't' as u8,
        '=' as u8,
        '1' as u8,
        '8' as u8,
        ':' as u8,
        '2' as u8,
        ':' as u8,
        '0' as u8,
    ]
}

pub open spec fn lit_hwaccel() -> Seq<u8> {
    seq!['-' as u8, 'h' as u8, 'w' as u8, 'a' as u8, 'c' as u8, 'c' as u8, 'e' as u8, 'l' as u8]
}

pub open spec fn lit_cuvid() -> Seq<u8> {
    seq!['c' as u8, 'u' as u8, 'v' as u8, 'i' as u8, 'd' as u8]
}

pub open spec fn lit_cv() -> Seq<u8> {
    seq!['-' as u8, 'c' as u8, ':' as u8, 'v' as u8]
}

pub open spec fn lit_h264_cuvid() -> Seq<u8> {
    seq![
        'h' as u8,
        '2' as u8,
        '6' as u8,
        '4' as u8,
        '_' as u8,
        'c' as u8,
        'u' as u8,
        'v' as u8,
        'i' as u8,
        'd' as u8,
    ]
}

pub open spec fn lit_crop_flag() -> Seq<u8> {
    seq!['-' as u8, 'c' as u8, 'r' as u8, 'o' as u8, 'p' as u8]
}

pub open spec fn lit_h264_nvenc() -> Seq<u8> {
    seq![
        'h' as u8,
        '2' as u8,
        '6' as u8,
        '4' as u8,
        '_' as u8,
        'n' as u8,
        'v' as u8,
        'e' as u8,
        'n' as u8,
        'c' as u8,
    ]
}

pub open spec fn lit_qp() -> Seq<u8> {
    seq!['-' as u8, 'q' as u8, 'p' as u8]
}

pub open spec fn lit_qp_value() -> Seq<u8> {
    seq!['3' as u8, '0' as u8]
}

fn bytes2(a: u8, b: u8) -> (r: Vec<u8>)
    ensures
        r@ == seq![a, b],
{
    let mut v: Vec<u8> = Vec::new();
    v.push(a);
    v.push(b);
    proof {
        assert(v@ =~= seq![a, b]);
    }
    v
}

fn bytes3(a: u8, b: u8, c: u8) -> (r: Vec<u8>)
    ensures
        r@ == seq![a, b, c],
{
    let mut v = bytes2(a, b);
    v.push(c);
    proof {
        assert(v@ =~= seq![a, b, c]);
    }
    v
}

fn bytes4(a: u8, b: u8, c: u8, d: u8) -> (r: Vec<u8>)
    ensures
        r@ == seq![a, b, c, d],
{
    let mut v = bytes3(a, b, c);
    v.push(d);
    proof {
        assert(v@ =~= seq![a, b, c, d]);
    }
    v
}

fn bytes5(a: u8, b: u8, c: u8, d: u8, e: u8) -> (r: Vec<u8>)
    ensures
        r@ == seq![a, b, c, d, e],
{
    let mut v = bytes4(a, b, c, d);
    v.push(e);
    proof {
        assert(v@ =~= seq![a, b, c, d, e]);
    }
    v
}

fn arg_vframes() -> (r: Vec<u8>)
    ensures
        r@ == lit_vframes(),
{
    let mut v = bytes5('-' as u8, 'v' as u8, 'f' as u8, 'r' as u8, 'a' as u8);
    v.push('m' as u8);
    v.push('e' as u8);
    v.push('s' as u8);
    proof {
        assert(v@ =~= lit_vframes());
    }
    v
}

fn arg_hwaccel() -> (r: Vec<u8>)
    ensures
        r@ == lit_hwaccel(),
{
    let mut v = bytes5('-' as u8, 'h' as u8, 'w' as u8, 'a' as u8, 'c' as u8);
    v.push('c' as u8);
    v.push('e' as u8);
    v.push('l' as u8);
    proof {
        assert(v@ =~= lit_hwaccel());
    }
    v
}

fn arg_cropdetect() -> (r: Vec<u8>)
    ensures
        r@ == lit_cropdetect(),
{
    let mut v = bytes5('c' as u8, 'r' as u8, 'o' as u8, 'p' as u8, 'd' as u8);
    v.push('e' as u8);
    v.push('t' as u8);
    v.push('e' as u8);
    v.push('c' as u8);
    v.push('t' as u8);
    v.push('=' as u8);
    v.push('1' as u8);
    v.push('8' as u8);
    v.push(':' as u8);
    v.push('2' as u8);
    v.push(':' as u8);
    v.push('0' as u8);
    proof {
        assert(v@ =~= lit_cropdetect());
    }
    v
}

fn arg_h264(tail0: u8, tail1: u8, tail2: u8, tail3: u8, tail4: u8) -> (r: Vec<u8>)
    ensures
        r@ == seq!['h' as u8, '2' as u8, '6' as u8, '4' as u8, '_' as u8, tail0, tail1, tail2, tail3, tail4],
{
    let mut v = bytes5('h' as u8, '2' as u8, '6' as u8, '4' as u8, '_' as u8);
    v.push(tail0);
    v.push(tail1);
    v.push(tail2);
    v.push(tail3);
    v.push(tail4);
    proof {
        assert(v@ =~= seq![
            'h' as u8,
            '2' as u8,
            '6' as u8,
            '4' as u8,
            '_' as u8,
            tail0,
            tail1,
            tail2,
            tail3,
            tail4,
        ]);
    }
    v
}

/// The argument list of the diagnostic pass: the border-detection filter
/// over the full input or a bounded sample, writing the throwaway scratch
/// sink, with `-y` so an existing scratch file is silently overwritten.
pub open spec fn spec_diagnostic_args(input: Seq<u8>, scratch: Seq<u8>, scan: ScanMode) -> Seq<
    Seq<u8>,
> {
    match scan {
        ScanMode::Full => seq![lit_i(), input, lit_vf(), lit_cropdetect(), lit_y(), scratch],
        ScanMode::Bounded { start_seconds, frame_count } => seq![
            lit_ss(),
            dec_digits(start_seconds as int),
            lit_i(),
            input,
            lit_vframes(),
            dec_digits(frame_count as int),
            lit_vf(),
            lit_cropdetect(),
            lit_y(),
            scratch,
        ],
    }
}

/// Builds the diagnostic pass's argument list for the configured scan mode.
pub fn diagnostic_args(config: &PipelineConfig) -> (r: Vec<Vec<u8>>)
    ensures
        r.deep_view() == spec_diagnostic_args(config.input@, config.scratch@, config.scan),
{
    let mut args: Vec<Vec<u8>> = Vec::new();
    match config.scan {
        ScanMode::Full => {
            args.push(bytes2('-' as u8, 'i' as u8));
            args.push(copy_bytes(&config.input));
            args.push(bytes3('-' as u8, 'v' as u8, 'f' as u8));
            args.push(arg_cropdetect());
            args.push(bytes2('-' as u8, 'y' as u8));
            args.push(copy_bytes(&config.scratch));
        },
        ScanMode::Bounded { start_seconds, frame_count } => {
            args.push(bytes3('-' as u8, 's' as u8, 's' as u8));
            args.push(render_u32(start_seconds));
            args.push(bytes2('-' as u8, 'i' as u8));
            args.push(copy_bytes(&config.input));
            args.push(arg_vframes());
            args.push(render_u32(frame_count));
            args.push(bytes3('-' as u8, 'v' as u8, 'f' as u8));
            args.push(arg_cropdetect());
            args.push(bytes2('-' as u8, 'y' as u8));
            args.push(copy_bytes(&config.scratch));
        },
    }
    proof {
        assert(args.deep_view() =~~= spec_diagnostic_args(
            config.input@,
            config.scratch@,
            config.scan,
        ));
    }
    args
}

/// The argument list of the software crop invocation: the directive's
/// filter expression applied verbatim as a video filter.
pub open spec fn spec_software_crop_args(
    input: Seq<u8>,
    filter: Seq<u8>,
    output: Seq<u8>,
) -> Seq<Seq<u8>> {
    seq![lit_i(), input, lit_vf(), filter, output]
}

/// Builds the software crop invocation from the extracted filter token.
pub fn software_crop_args(config: &PipelineConfig, filter: &Vec<u8>) -> (r: Vec<Vec<u8>>)
    ensures
        r.deep_view() == spec_software_crop_args(config.input@, filter@, config.output@),
{
    let mut args: Vec<Vec<u8>> = Vec::new();
    args.push(bytes2('-' as u8, 'i' as u8));
    args.push(copy_bytes(&config.input));
    args.push(bytes3('-' as u8, 'v' as u8, 'f' as u8));
    args.push(copy_bytes(filter));
    args.push(copy_bytes(&config.output));
    proof {
        assert(args.deep_view() =~~= spec_software_crop_args(
            config.input@,
            filter@,
            config.output@,
        ));
    }
    args
}

/// The argument list of the hardware-accelerated crop invocation: decode
/// with the cuvid decoder, crop by per-side margins, re-encode with the
/// nvenc encoder at a fixed quantizer.
pub open spec fn spec_accelerated_crop_args(
    input: Seq<u8>,
    margins: Margins,
    output: Seq<u8>,
) -> Seq<Seq<u8>> {
    seq![
        lit_hwaccel(),
        lit_cuvid(),
        lit_cv(),
        lit_h264_cuvid(),
        lit_crop_flag(),
        spec_margin_text(margins),
        lit_i(),
        input,
        lit_cv(),
        lit_h264_nvenc(),
        lit_qp(),
        lit_qp_value(),
        lit_y(),
        output,
    ]
}

/// Builds the accelerated crop invocation from the resolved margins.
pub fn accelerated_crop_args(config: &PipelineConfig, margins: &Margins) -> (r: Vec<Vec<u8>>)
    ensures
        r.deep_view() == spec_accelerated_crop_args(config.input@, *margins, config.output@),
{
    let mut args: Vec<Vec<u8>> = Vec::new();
    args.push(arg_hwaccel());
    args.push(bytes5('c' as u8, 'u' as u8, 'v' as u8, 'i' as u8, 'd' as u8));
    args.push(bytes4('-' as u8, 'c' as u8, ':' as u8, 'v' as u8));
    args.push(arg_h264('c' as u8, 'u' as u8, 'v' as u8, 'i' as u8, 'd' as u8));
    args.push(bytes5('-' as u8, 'c' as u8, 'r' as u8, 'o' as u8, 'p' as u8));
    args.push(format_margins(margins));
    args.push(bytes2('-' as u8, 'i' as u8));
    args.push(copy_bytes(&config.input));
    args.push(bytes4('-' as u8, 'c' as u8, ':' as u8, 'v' as u8));
    args.push(arg_h264('n' as u8, 'v' as u8, 'e' as u8, 'n' as u8, 'c' as u8));
    args.push(bytes3('-' as u8, 'q' as u8, 'p' as u8));
    args.push(bytes2('3' as u8, '0' as u8));
    args.push(bytes2('-' as u8, 'y' as u8));
    args.push(copy_bytes(&config.output));
    proof {
        assert(args.deep_view() =~~= spec_accelerated_crop_args(
            config.input@,
            *margins,
            config.output@,
        ));
    }
    args
}

/// Where a pipeline run stands.
#[derive(Clone, Copy, Debug, PartialEq, Eq, Structural)]
pub enum PipelineState {
    /// Nothing has happened yet.
    Idle,
    /// The diagnostic pass is running.
    Detecting,
    /// Borders were detected; the dimension probe is running.
    Resolving { crop: CropBox },
    /// The final crop invocation is running.
    Cropping,
    /// The run ended; `cropped` says whether an output file was produced.
    Done { cropped: bool },
    /// The run failed before or during cropping; nothing more will run.
    Aborted { error: PipelineError },
}

/// What the caller reports back to the pipeline.
pub enum PipelineEvent {
    /// Begin a run.
    Start,
    /// The diagnostic pass ended; its diagnostic channel was captured as
    /// these lines, and `success` reports its exit status.
    DiagnosticFinished { lines: Vec<Vec<u8>>, success: bool },
    /// The diagnostic pass could not run (`ProcessSpawnError`) or its
    /// diagnostic channel could not be attached (`StreamCaptureError`).
    DiagnosticFailed { error: PipelineError },
    /// The dimension probe returned its `WIDTHxHEIGHT` line.
    ProbeFinished { line: Vec<u8> },
    /// The dimension probe failed to return a line.
    ProbeFailed,
    /// The transcoder finished the crop invocation.
    TranscodeFinished { success: bool },
}

/// What the caller must do next.
pub enum PipelineAction {
    /// Run the diagnostic pass with these arguments and capture its
    /// diagnostic channel line by line.
    RunDiagnostic { args: Vec<Vec<u8>> },
    /// Probe the input's dimensions.
    ProbeDimensions,
    /// Hand this fully-built invocation to the transcoder.
    RunTranscode { args: Vec<Vec<u8>> },
    /// Tell the user no borders were found; the run is over, with no
    /// output file and no error.
    ReportNoBorders,
    /// Nothing: the run is over or the event did not belong to the state.
    Stop,
}

/// The event kinds that can legitimately arrive in each state.
pub open spec fn event_fits(state: PipelineState, event: PipelineEvent) -> bool {
    match (state, event) {
        (PipelineState::Idle, PipelineEvent::Start) => true,
        (PipelineState::Detecting, PipelineEvent::DiagnosticFinished { .. }) => true,
        (PipelineState::Detecting, PipelineEvent::DiagnosticFailed { .. }) => true,
        (PipelineState::Resolving { .. }, PipelineEvent::ProbeFinished { .. }) => true,
        (PipelineState::Resolving { .. }, PipelineEvent::ProbeFailed) => true,
        (PipelineState::Cropping, PipelineEvent::TranscodeFinished { .. }) => true,
        _ => false,
    }
}

/// One transition of the border-removal pipeline.
///
/// The caller drives the loop: it performs the returned action, then feeds
/// the result back as the next event.  An event that does not belong to the
/// current state leaves the state unchanged.  Every failure of detection or
/// resolution moves to `Aborted` before any crop invocation is issued: the
/// pipeline never crops on partial or uncertain data.
pub fn pipeline_step(config: &PipelineConfig, state: &PipelineState, event: PipelineEvent) -> (r: (
    PipelineState,
    PipelineAction,
))
    ensures
        !event_fits(*state, event) ==> r.0 == *state && r.1 matches PipelineAction::Stop,
        *state matches PipelineState::Idle ==> (event matches PipelineEvent::Start ==> r.0
            == PipelineState::Detecting && (r.1 matches PipelineAction::RunDiagnostic { args }
            && args.deep_view() == spec_diagnostic_args(
            config.input@,
            config.scratch@,
            config.scan,
        ))),
        *state matches PipelineState::Detecting ==> (event
            matches PipelineEvent::DiagnosticFinished { lines, success } ==> ({
            let ls = lines.deep_view();
            &&& (!success ==> r.0 == (PipelineState::Aborted {
                error: PipelineError::DiagnosticExitError,
            }) && r.1 matches PipelineAction::Stop)
            &&& (success && last_match(ls) is None ==> r.0 == (PipelineState::Done {
                cropped: false,
            }) && r.1 matches PipelineAction::ReportNoBorders)
            &&& (success ==> (last_match(ls) matches Some(d) ==> match config.strategy {
                Strategy::Software => match spec_filter_token(d) {
                    Some(t) => r.0 == PipelineState::Cropping && (r.1
                        matches PipelineAction::RunTranscode { args } && args.deep_view()
                        == spec_software_crop_args(config.input@, t, config.output@)),
                    None => r.0 == (PipelineState::Aborted { error: PipelineError::ParseError })
                        && r.1 matches PipelineAction::Stop,
                },
                Strategy::Accelerated => match spec_crop_box(d) {
                    Some(cb) => r.0 == (PipelineState::Resolving { crop: cb }) && r.1
                        matches PipelineAction::ProbeDimensions,
                    None => r.0 == (PipelineState::Aborted { error: PipelineError::ParseError })
                        && r.1 matches PipelineAction::Stop,
                },
            }))
        })),
        *state matches PipelineState::Detecting ==> (event
            matches PipelineEvent::DiagnosticFailed { error } ==> r.0 == (PipelineState::Aborted {
            error,
        }) && r.1 matches PipelineAction::Stop),
        *state matches PipelineState::Resolving { crop } ==> (event
            matches PipelineEvent::ProbeFinished { line } ==> (match spec_dimensions(line@) {
            None => r.0 == (PipelineState::Aborted {
                error: PipelineError::NumericConversionError,
            }) && r.1 matches PipelineAction::Stop,
            Some(dims) => match spec_margins(crop, dims, config.top_pad) {
                None => r.0 == (PipelineState::Aborted { error: PipelineError::MarginRangeError })
                    && r.1 matches PipelineAction::Stop,
                Some(m) => r.0 == PipelineState::Cropping && (r.1
                    matches PipelineAction::RunTranscode { args } && args.deep_view()
                    == spec_accelerated_crop_args(config.input@, m, config.output@)),
            },
        })),
        *state matches PipelineState::Resolving { crop } ==> (event
            matches PipelineEvent::ProbeFailed ==> r.0 == (PipelineState::Aborted {
            error: PipelineError::DimensionProbeError,
        }) && r.1 matches PipelineAction::Stop),
        *state matches PipelineState::Cropping ==> (event
            matches PipelineEvent::TranscodeFinished { success } ==> if success {
            r.0 == (PipelineState::Done { cropped: true }) && r.1 matches PipelineAction::Stop
        } else {
            r.0 == (PipelineState::Aborted { error: PipelineError::TranscodeError }) && r.1
                matches PipelineAction::Stop
        }),
{
    match event {
        PipelineEvent::Start => match *state {
            PipelineState::Idle => (
                PipelineState::Detecting,
                PipelineAction::RunDiagnostic { args: diagnostic_args(config) },
            ),
            _ => (*state, PipelineAction::Stop),
        },
        PipelineEvent::DiagnosticFinished { lines, success } => match *state {
            PipelineState::Detecting => {
                if !success {
                    (
                        PipelineState::Aborted { error: PipelineError::DiagnosticExitError },
                        PipelineAction::Stop,
                    )
                } else {
                    match scan_for_directive(&lines) {
                        None => (
                            PipelineState::Done { cropped: false },
                            PipelineAction::ReportNoBorders,
                        ),
                        Some(d) => match config.strategy {
                            Strategy::Software => match extract_filter_token(&d) {
                                Ok(t) => (
                                    PipelineState::Cropping,
                                    PipelineAction::RunTranscode {
                                        args: software_crop_args(config, &t),
                                    },
                                ),
                                Err(e) => (
                                    PipelineState::Aborted { error: e },
                                    PipelineAction::Stop,
                                ),
                            },
                            Strategy::Accelerated => match extract_crop_box(&d) {
                                Ok(cb) => (
                                    PipelineState::Resolving { crop: cb },
                                    PipelineAction::ProbeDimensions,
                                ),
                                Err(e) => (
                                    PipelineState::Aborted { error: e },
                                    PipelineAction::Stop,
                                ),
                            },
                        },
                    }
                }
            },
            _ => (*state, PipelineAction::Stop),
        },
        PipelineEvent::DiagnosticFailed { error } => match *state {
            PipelineState::Detecting => (PipelineState::Aborted { error }, PipelineAction::Stop),
            _ => (*state, PipelineAction::Stop),
        },
        PipelineEvent::ProbeFinished { line } => match *state {
            PipelineState::Resolving { crop } => match parse_dimensions(&line) {
                Err(e) => (PipelineState::Aborted { error: e }, PipelineAction::Stop),
                Ok(dims) => match resolve_margins(&crop, &dims, config.top_pad) {
                    Err(e) => (PipelineState::Aborted { error: e }, PipelineAction::Stop),
                    Ok(m) => (
                        PipelineState::Cropping,
                        PipelineAction::RunTranscode {
                            args: accelerated_crop_args(config, &m),
                        },
                    ),
                },
            },
            _ => (*state, PipelineAction::Stop),
        },
        PipelineEvent::ProbeFailed => match *state {
            PipelineState::Resolving { .. } => (
                PipelineState::Aborted { error: PipelineError::DimensionProbeError },
                PipelineAction::Stop,
            ),
            _ => (*state, PipelineAction::Stop),
        },
        PipelineEvent::TranscodeFinished { success } => match *state {
            PipelineState::Cropping => if success {
                (PipelineState::Done { cropped: true }, PipelineAction::Stop)
            } else {
                (
                    PipelineState::Aborted { error: PipelineError::TranscodeError },
                    PipelineAction::Stop,
                )
            },
            _ => (*state, PipelineAction::Stop),
        },
    }
}

} // verus!
