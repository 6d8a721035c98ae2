//! Crop geometry: extracting the reported rectangle from a retained
//! directive, parsing probed frame dimensions, and resolving per-side
//! margins for the accelerated crop path.

use vstd::prelude::*;

use crate::errors::PipelineError;
use crate::text::bytes_eq;
use crate::text::copy_bytes;
use crate::text::dec_digits;
use crate::text::dec_u32;
use crate::text::parse_u32;
use crate::text::render_u32;
use crate::text::split_at_sep;
use crate::text::split_sep;
use crate::text::split_ws;
use crate::text::tokenize;

verus! {

/// The absolute crop rectangle reported by the last retained directive:
/// top-left offset `(x1, y1)` and bottom-right offset `(x2, y2)`, measured
/// so that `width - x2` is the right margin.
#[derive(Clone, Copy, Debug, PartialEq, Eq, Structural)]
pub struct CropBox {
    pub x1: u32,
    pub y1: u32,
    pub x2: u32,
    pub y2: u32,
}

/// Width and height of the original input frame, as probed.
#[derive(Clone, Copy, Debug, PartialEq, Eq, Structural)]
pub struct VideoDimensions {
    pub width: u32,
    pub height: u32,
}

/// Per-side crop margins for the accelerated path.
#[derive(Clone, Copy, Debug, PartialEq, Eq, Structural)]
pub struct Margins {
    pub top: u32,
    pub bottom: u32,
    pub left: u32,
    pub right: u32,
}

/// The fixed safety pad added to the top margin: the detector's rectangle
/// is observed to slightly undercrop at the top edge.
pub const DEFAULT_TOP_PAD: u32 = 2;

/// The separator byte of a `label:value` field.
pub const FIELD_SEP: u8 = 58;

/// The separator byte of a `WIDTHxHEIGHT` probe line.
pub const DIMENSION_SEP: u8 = 120;

pub open spec fn label_x1() -> Seq<u8> {
    seq!['x' as u8, '1' as u8]
}

pub open spec fn label_x2() -> Seq<u8> {
    seq!['x' as u8, '2' as u8]
}

pub open spec fn label_y1() -> Seq<u8> {
    seq!['y' as u8, '1' as u8]
}

pub open spec fn label_y2() -> Seq<u8> {
    seq!['y' as u8, '2' as u8]
}

fn label_bytes(first: u8, second: u8) -> (r: Vec<u8>)
    ensures
        r@ == seq![first, second],
{
    let mut v: Vec<u8> = Vec::new();
    v.push(first);
    v.push(second);
    proof {
        assert(v@ =~= seq![first, second]);
    }
    v
}

/// The value of a `label:value` token: `Some` exactly when the token splits
/// at `:` into the expected label followed by a decimal number in `u32`
/// range (anything after a second `:` is ignored).
pub open spec fn labeled_value(tok: Seq<u8>, label: Seq<u8>) -> Option<u32> {
    let parts = split_sep(tok, FIELD_SEP);
    if parts.len() >= 2 && parts[0] == label {
        dec_u32(parts[1])
    } else {
        None
    }
}

/// Parses one `label:value` token against an expected label.
fn parse_labeled(tok: &Vec<u8>, label: &Vec<u8>) -> (r: Option<u32>)
    ensures
        r == labeled_value(tok@, label@),
{
    let parts = split_at_sep(tok, FIELD_SEP);
    if parts.len() < 2 {
        return None;
    }
    proof {
        assert(parts.deep_view()[0] == parts@[0]@);
        assert(parts.deep_view()[1] == parts@[1]@);
    }
    if !bytes_eq(&parts[0], label) {
        return None;
    }
    parse_u32(&parts[1])
}

/// The token position of the `x1:` field in a directive line.
pub const POS_X1: usize = 3;

/// The token position of the `x2:` field in a directive line.
pub const POS_X2: usize = 4;

/// The token position of the `y1:` field in a directive line.
pub const POS_Y1: usize = 5;

/// The token position of the `y2:` field in a directive line.
pub const POS_Y2: usize = 6;

/// The token position of the `crop=w:h:x:y` filter expression in a
/// directive line.
pub const POS_FILTER: usize = 13;

/// The rectangle a directive line denotes, or `None` when the line has too
/// few tokens or any of the four labeled fields is absent, mislabeled or
/// non-numeric.
///
/// The layout is position-dependent by construction: it assumes the exact
/// token order the detection filter emits, with `x1: x2: y1: y2:` at fixed
/// positions.  Every layout assumption of the library lives here and in
/// `spec_filter_token`.
pub open spec fn spec_crop_box(d: Seq<u8>) -> Option<CropBox> {
    let toks = split_ws(d);
    if toks.len() <= POS_Y2 {
        None
    } else {
        match (
            labeled_value(toks[POS_X1 as int], label_x1()),
            labeled_value(toks[POS_X2 as int], label_x2()),
            labeled_value(toks[POS_Y1 as int], label_y1()),
            labeled_value(toks[POS_Y2 as int], label_y2()),
        ) {
            (Some(x1), Some(x2), Some(y1), Some(y2)) => Some(CropBox { x1, y1, x2, y2 }),
            _ => None,
        }
    }
}

/// Extracts the absolute crop rectangle from a retained directive.
///
/// The result is a function of the directive text alone, so extraction is
/// deterministic: the same text always yields the same `CropBox`.
pub fn extract_crop_box(d: &Vec<u8>) -> (r: Result<CropBox, PipelineError>)
    ensures
        match r {
            Ok(cb) => spec_crop_box(d@) == Some(cb),
            Err(e) => spec_crop_box(d@) is None && e == PipelineError::ParseError,
        },
{
    let toks = tokenize(d);
    if toks.len() <= POS_Y2 {
        return Err(PipelineError::ParseError);
    }
    proof {
        assert(toks.deep_view()[POS_X1 as int] == toks@[POS_X1 as int]@);
        assert(toks.deep_view()[POS_X2 as int] == toks@[POS_X2 as int]@);
        assert(toks.deep_view()[POS_Y1 as int] == toks@[POS_Y1 as int]@);
        assert(toks.deep_view()[POS_Y2 as int] == toks@[POS_Y2 as int]@);
    }
    let x1 = match parse_labeled(&toks[POS_X1], &label_bytes('x' as u8, '1' as u8)) {
        Some(v) => v,
        None => {
            return Err(PipelineError::ParseError);
        },
    };
    let x2 = match parse_labeled(&toks[POS_X2], &label_bytes('x' as u8, '2' as u8)) {
        Some(v) => v,
        None => {
            return Err(PipelineError::ParseError);
        },
    };
    let y1 = match parse_labeled(&toks[POS_Y1], &label_bytes('y' as u8, '1' as u8)) {
        Some(v) => v,
        None => {
            return Err(PipelineError::ParseError);
        },
    };
    let y2 = match parse_labeled(&toks[POS_Y2], &label_bytes('y' as u8, '2' as u8)) {
        Some(v) => v,
        None => {
            return Err(PipelineError::ParseError);
        },
    };
    Ok(CropBox { x1, y1, x2, y2 })
}

/// The `crop=w:h:x:y` filter-expression token of a directive line, used
/// verbatim by the software crop path; its content is opaque to this
/// subsystem.  `None` when the line has too few tokens.
pub open spec fn spec_filter_token(d: Seq<u8>) -> Option<Seq<u8>> {
    let toks = split_ws(d);
    if toks.len() <= POS_FILTER {
        None
    } else {
        Some(toks[POS_FILTER as int])
    }
}

/// Extracts the software crop filter expression from a retained directive.
pub fn extract_filter_token(d: &Vec<u8>) -> (r: Result<Vec<u8>, PipelineError>)
    ensures
        match r {
            Ok(t) => spec_filter_token(d@) == Some(t@),
            Err(e) => spec_filter_token(d@) is None && e == PipelineError::ParseError,
        },
{
    let toks = tokenize(d);
    if toks.len() <= POS_FILTER {
        return Err(PipelineError::ParseError);
    }
    proof {
        assert(toks.deep_view()[POS_FILTER as int] == toks@[POS_FILTER as int]@);
    }
    Ok(copy_bytes(&toks[POS_FILTER]))
}

/// The dimensions a `WIDTHxHEIGHT` probe line denotes: `None` when the line
/// has no `x` separator or either half is not a decimal number in `u32`
/// range (a third `x`-separated part, if any, is ignored).
pub open spec fn spec_dimensions(s: Seq<u8>) -> Option<VideoDimensions> {
    let parts = split_sep(s, DIMENSION_SEP);
    if parts.len() >= 2 {
        match (dec_u32(parts[0]), dec_u32(parts[1])) {
            (Some(width), Some(height)) => Some(VideoDimensions { width, height }),
            _ => None,
        }
    } else {
        None
    }
}

/// Parses the dimension probe's `WIDTHxHEIGHT` output line.
pub fn parse_dimensions(s: &Vec<u8>) -> (r: Result<VideoDimensions, PipelineError>)
    ensures
        match r {
            Ok(v) => spec_dimensions(s@) == Some(v),
            Err(e) => spec_dimensions(s@) is None && e == PipelineError::NumericConversionError,
        },
{
    let parts = split_at_sep(s, DIMENSION_SEP);
    if parts.len() < 2 {
        return Err(PipelineError::NumericConversionError);
    }
    proof {
        assert(parts.deep_view()[0] == parts@[0]@);
        assert(parts.deep_view()[1] == parts@[1]@);
    }
    let width = match parse_u32(&parts[0]) {
        Some(v) => v,
        None => {
            return Err(PipelineError::NumericConversionError);
        },
    };
    let height = match parse_u32(&parts[1]) {
        Some(v) => v,
        None => {
            return Err(PipelineError::NumericConversionError);
        },
    };
    Ok(VideoDimensions { width, height })
}

/// The margins a rectangle and the original dimensions resolve to:
/// `top = y1 + pad`, `bottom = height - y2`, `left = x1`,
/// `right = width - x2`.  `None` when a subtraction would go negative or
/// the padded top would overflow: inconsistent probe/detector data is
/// flagged, never silently wrapped.
pub open spec fn spec_margins(cb: CropBox, dims: VideoDimensions, pad: u32) -> Option<Margins> {
    if cb.y1 + pad <= u32::MAX && cb.y2 <= dims.height && cb.x2 <= dims.width {
        Some(
            Margins {
                top: (cb.y1 + pad) as u32,
                bottom: (dims.height - cb.y2) as u32,
                left: cb.x1,
                right: (dims.width - cb.x2) as u32,
            },
        )
    } else {
        None
    }
}

/// Resolves a crop rectangle plus the original dimensions into four
/// independent margins, exactly per the margin formulas.
pub fn resolve_margins(cb: &CropBox, dims: &VideoDimensions, pad: u32) -> (r: Result<
    Margins,
    PipelineError,
>)
    ensures
        match r {
            Ok(m) => spec_margins(*cb, *dims, pad) == Some(m),
            Err(e) => spec_margins(*cb, *dims, pad) is None && e
                == PipelineError::MarginRangeError,
        },
{
    if cb.y1 > u32::MAX - pad {
        return Err(PipelineError::MarginRangeError);
    }
    if cb.y2 > dims.height {
        return Err(PipelineError::MarginRangeError);
    }
    if cb.x2 > dims.width {
        return Err(PipelineError::MarginRangeError);
    }
    Ok(
        Margins {
            top: cb.y1 + pad,
            bottom: dims.height - cb.y2,
            left: cb.x1,
            right: dims.width - cb.x2,
        },
    )
}

/// A rectangle that spans the full frame resolves to margins
/// `{top: 2, bottom: 0, left: 0, right: 0}` under the default pad: the
/// fixed top pad is applied even when there is no border to remove, a
/// deliberate but non-obvious asymmetry.
pub proof fn lemma_full_frame_margins(cb: CropBox, dims: VideoDimensions)
    requires
        cb.x1 == 0,
        cb.y1 == 0,
        cb.x2 == dims.width,
        cb.y2 == dims.height,
    ensures
        spec_margins(cb, dims, DEFAULT_TOP_PAD) == Some(
            Margins { top: 2, bottom: 0, left: 0, right: 0 },
        ),
{
}

/// The `TOPxBOTTOMxLEFTxRIGHT` argument of the accelerated crop filter.
pub open spec fn spec_margin_text(m: Margins) -> Seq<u8> {
    dec_digits(m.top as int) + seq![DIMENSION_SEP] + dec_digits(m.bottom as int) + seq![
        DIMENSION_SEP,
    ] + dec_digits(m.left as int) + seq![DIMENSION_SEP] + dec_digits(m.right as int)
}

/// Renders margins as the accelerated crop filter's argument.
pub fn format_margins(m: &Margins) -> (r: Vec<u8>)
    ensures
        r@ == spec_margin_text(*m),
{
    let mut out = render_u32(m.top);
    out.push(DIMENSION_SEP);
    let mut part = render_u32(m.bottom);
    out.append(&mut part);
    out.push(DIMENSION_SEP);
    let mut part2 = render_u32(m.left);
    out.append(&mut part2);
    out.push(DIMENSION_SEP);
    let mut part3 = render_u32(m.right);
    out.append(&mut part3);
    proof {
        assert(out@ =~= spec_margin_text(*m));
    }
    out
}

} // verus!
