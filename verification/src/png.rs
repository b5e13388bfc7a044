//! The resumable PNG decode session.
//!
//! Decoding is delegated to the `png` crate; this module owns the state
//! machine around it.  The session buffers every byte its source has
//! produced and, on each attempt, drives the crate's decoder over those
//! bytes.  Parsing a fixed byte vector is deterministic, so each trusted
//! call is specified as a pure function of the bytes it was given: the
//! header probe, the `k`-th decoded row, and the scatter step that places an
//! interlaced row into the image are all named spec functions, and every
//! claim the session makes about its pixel buffer is stated over them.

use vstd::prelude::*;

use crate::adam7::{
    advance_pos, first_pos_from, pos_valid, row_bytes_u64, spec_advance, spec_pos_at,
    spec_row_bytes, spec_valid_bpp, spec_y_offset, spec_y_sampling, valid_bpp, PassPos,
};
use crate::phase::{phase_index, DriveMode, Phase};
use crate::result::DecodingResult;
use crate::rows::{row_reported, Orientation, RowTracker};
use crate::source::{copy_range, splice_at, zero_vec, ByteSource};

verus! {

/// The color interpretation of decoded samples, as the PNG header states it.
#[derive(Clone, Copy, Debug, PartialEq, Eq, Structural)]
pub enum ColorType {
    Grayscale,
    Rgb,
    Indexed,
    GrayscaleAlpha,
    Rgba,
}

impl ColorType {
    /// Samples per pixel for this color type.
    pub open spec fn spec_channels(self) -> u32 {
        match self {
            ColorType::Grayscale => 1,
            ColorType::Rgb => 3,
            ColorType::Indexed => 1,
            ColorType::GrayscaleAlpha => 2,
            ColorType::Rgba => 4,
        }
    }

    pub fn channels(self) -> (n: u32)
        ensures
            n == self.spec_channels(),
    {
        match self {
            ColorType::Grayscale => 1,
            ColorType::Rgb => 3,
            ColorType::Indexed => 1,
            ColorType::GrayscaleAlpha => 2,
            ColorType::Rgba => 4,
        }
    }

    /// The color type for a PNG color code, which the format defines as
    /// 0, 2, 3, 4 or 6.
    pub open spec fn spec_from_code(code: u8) -> Option<ColorType> {
        match code {
            0u8 => Some(ColorType::Grayscale),
            2u8 => Some(ColorType::Rgb),
            3u8 => Some(ColorType::Indexed),
            4u8 => Some(ColorType::GrayscaleAlpha),
            6u8 => Some(ColorType::Rgba),
            _ => None,
        }
    }

    pub fn from_code(code: u8) -> (c: Option<ColorType>)
        ensures
            c == ColorType::spec_from_code(code),
    {
        match code {
            0 => Some(ColorType::Grayscale),
            2 => Some(ColorType::Rgb),
            3 => Some(ColorType::Indexed),
            4 => Some(ColorType::GrayscaleAlpha),
            6 => Some(ColorType::Rgba),
            _ => None,
        }
    }
}

/// The facts the session keeps from the image header: dimensions, the raw
/// color code and bit depth, and whether the image is interlaced.
#[derive(Clone, Copy, Debug, PartialEq, Eq, Structural)]
pub struct IhdrInfo {
    pub width: u32,
    pub height: u32,
    /// PNG color code: 0, 2, 3, 4 or 6.
    pub color_code: u8,
    pub bit_depth: u8,
    pub interlaced: bool,
}

/// The layout of the rows the decoder hands out, after output
/// transformations: color and bit depth per sample.
#[derive(Clone, Copy, Debug, PartialEq, Eq, Structural)]
pub struct OutputLayout {
    /// PNG color code of the output rows.
    pub color_code: u8,
    pub bits_per_component: u8,
}

/// How a failed decode step classifies.
#[derive(Clone, Copy, Debug, PartialEq, Eq, Structural)]
pub enum PngFail {
    /// The bytes seen so far are a valid prefix; more input may succeed.
    Incomplete,
    /// The bytes are structurally invalid.
    BadFormat,
    /// A decoder resource ceiling was exceeded.
    LimitsHit,
    /// Any other failure; retrying will not help.
    Unusable,
}

impl PngFail {
    pub open spec fn spec_to_result(self) -> DecodingResult {
        match self {
            PngFail::Incomplete => DecodingResult::IncompleteInput,
            PngFail::BadFormat => DecodingResult::FormatError,
            PngFail::LimitsHit => DecodingResult::LimitsExceeded,
            PngFail::Unusable => DecodingResult::OtherError,
        }
    }

    pub fn to_result(self) -> (r: DecodingResult)
        ensures
            r == self.spec_to_result(),
            r != DecodingResult::Success,
            r.is_terminal() <==> self != PngFail::Incomplete,
    {
        match self {
            PngFail::Incomplete => DecodingResult::IncompleteInput,
            PngFail::BadFormat => DecodingResult::FormatError,
            PngFail::LimitsHit => DecodingResult::LimitsExceeded,
            PngFail::Unusable => DecodingResult::OtherError,
        }
    }
}

/// Outcome of probing a byte prefix for the image header.
#[derive(Clone, Copy, Debug, PartialEq, Eq, Structural)]
pub enum IhdrProbe {
    Ihdr(IhdrInfo),
    Fail(PngFail),
}

/// Outcome of opening a decoder over a byte prefix, up to the first image
/// data chunk.
#[derive(Clone, Copy, Debug, PartialEq, Eq, Structural)]
pub enum OpenAbs {
    Open(OutputLayout),
    Fail(PngFail),
}

/// Abstract outcome of asking the decoder for one more row.
pub enum RowStepAbs {
    /// One more row, with its output bytes.
    Yield(Seq<u8>),
    /// All rows of the frame are exhausted.
    End,
    Fail(PngFail),
}

/// What probing `data` for a PNG header returns.  Parsing a fixed byte
/// vector is deterministic, so this is a function of the bytes alone.
pub uninterp spec fn png_ihdr_of(data: Seq<u8>) -> IhdrProbe;

/// What opening a decoder over `data` with the given output transformations
/// returns: the output row layout, or the failure.
pub uninterp spec fn png_open_of(data: Seq<u8>, expand: bool, strip16: bool) -> OpenAbs;

/// What the `k`-th row request returns for a decoder opened over `data` with
/// the given transformations.
pub uninterp spec fn png_step_of(data: Seq<u8>, expand: bool, strip16: bool, k: int) -> RowStepAbs;

/// The bytes a decoder value was opened over.
pub uninterp spec fn png_dec_input(d: PngDecoder) -> Seq<u8>;

/// The output transformations a decoder value was opened with.
pub uninterp spec fn png_dec_flags(d: PngDecoder) -> (bool, bool);

/// How many rows a decoder value has yielded so far.
pub uninterp spec fn png_dec_pos(d: PngDecoder) -> int;

/// Whether a decoder value is still on its deterministic path.  A decoder
/// that has reported a failure leaves this state, and nothing further is
/// promised of it.
pub uninterp spec fn png_dec_ok(d: PngDecoder) -> bool;

/// The image buffer after scattering one interlaced row into it: a pure
/// placement function of the buffer, the row, and the pass geometry.
pub uninterp spec fn adam7_expanded(
    img: Seq<u8>,
    row_stride: int,
    row: Seq<u8>,
    pass: u8,
    line: u32,
    width: u32,
    bits_per_pixel: u8,
) -> Seq<u8>;

#[verifier::external_type_specification]
#[verifier::external_body]
pub struct ExPngDecodingError(png::DecodingError);

/// The `png` crate's pull decoder over the session's buffered bytes.  Verus
/// cannot name the crate's generic reader type directly, so the value is
/// held whole behind this opaque struct; the named spec functions above
/// describe its state.
#[verifier::external_body]
pub struct PngDecoder {
    inner: png::Reader<std::io::Cursor<Vec<u8>>>,
}

/// Result of `png_open`: a live decoder plus its output layout, or the
/// failure class.
pub enum PngOpen {
    Open(PngDecoder, OutputLayout),
    Fail(PngFail),
}

/// Result of `png_next_row`: one row's bytes, end of frame, or the failure
/// class.
pub enum RowStep {
    Yield(Vec<u8>),
    End,
    Fail(PngFail),
}

/// One row handed out by `next_interlaced_row`: the result code and, on
/// `Success`, the row's output bytes.
pub struct RowRead {
    pub status: DecodingResult,
    pub data: Vec<u8>,
}

/// A block of newly completed rows handed out by `pull_new_rows`: the
/// result code, the block's position, and a copy of its bytes.
pub struct NewRows {
    pub status: DecodingResult,
    /// Logical index of the first row of the block.
    pub row_start: u32,
    /// Number of rows in the block; zero means "nothing new", a valid
    /// steady state.
    pub row_count: u32,
    /// The rows' bytes, `row_count * stride` of them.
    pub bytes: Vec<u8>,
}

/// Relies on png::Decoder::new and png::Decoder::read_header_info: parses
/// the PNG signature and the IHDR chunk from the front of `data`.  Running
/// out of bytes surfaces as an unexpected-end-of-file read error.
#[verifier::external_body]
fn png_peek_ihdr(data: &Vec<u8>) -> (r: IhdrProbe)
    ensures
        r == png_ihdr_of(data@),
{
    let mut d = png::Decoder::new(std::io::Cursor::new(data.clone()));
    match d.read_header_info() {
        Ok(info) => IhdrProbe::Ihdr(IhdrInfo {
            width: info.width,
            height: info.height,
            color_code: info.color_type as u8,
            bit_depth: info.bit_depth as u8,
            interlaced: info.interlaced,
        }),
        Err(e) => IhdrProbe::Fail(png_fail_of(&e)),
    }
}

/// Relies on the shape of png::DecodingError: classifies a decode failure,
/// treating an unexpected-end-of-file read error as retryable input
/// exhaustion, as a cursor over a byte buffer can produce no other read
/// error.
#[verifier::external_body]
fn png_fail_of(e: &png::DecodingError) -> PngFail {
    match e {
        png::DecodingError::IoError(io) => {
            if io.kind() == std::io::ErrorKind::UnexpectedEof {
                PngFail::Incomplete
            } else {
                PngFail::Unusable
            }
        },
        png::DecodingError::Format(_) => PngFail::BadFormat,
        png::DecodingError::LimitsExceeded => PngFail::LimitsHit,
        png::DecodingError::Parameter(_) => PngFail::Unusable,
    }
}

/// Relies on png::Decoder::new, png::Decoder::set_transformations and
/// png::Decoder::read_info: opens a decoder over `data`, reading all chunks
/// up to the first image data chunk, and reports the output row layout via
/// png::Reader::output_color_type.
#[verifier::external_body]
fn png_open(data: &Vec<u8>, expand: bool, strip16: bool) -> (r: PngOpen)
    ensures
        match r {
            PngOpen::Open(d, lay) => {
                &&& png_open_of(data@, expand, strip16) == OpenAbs::Open(lay)
                &&& png_dec_input(d) == data@
                &&& png_dec_flags(d) == (expand, strip16)
                &&& png_dec_pos(d) == 0
                &&& png_dec_ok(d)
            },
            PngOpen::Fail(f) => png_open_of(data@, expand, strip16) == OpenAbs::Fail(f),
        },
{
    let mut d = png::Decoder::new(std::io::Cursor::new(data.clone()));
    let mut t = png::Transformations::IDENTITY;
    if expand { t = t | png::Transformations::EXPAND; }
    if strip16 { t = t | png::Transformations::STRIP_16; }
    d.set_transformations(t);
    match d.read_info() {
        Ok(reader) => {
            let (color, depth) = reader.output_color_type();
            let lay = OutputLayout { color_code: color as u8, bits_per_component: depth as u8 };
            PngOpen::Open(PngDecoder { inner: reader }, lay)
        },
        Err(e) => PngOpen::Fail(png_fail_of(&e)),
    }
}

/// Relies on png::Reader::next_interlaced_row: decodes the next row of the
/// frame, returning a copy of its output bytes, or reports that all rows are
/// done.  For a decoder that already reported a failure nothing is promised.
#[verifier::external_body]
fn png_next_row(d: &mut PngDecoder) -> (r: RowStep)
    ensures
        png_dec_input(*final(d)) == png_dec_input(*old(d)),
        png_dec_flags(*final(d)) == png_dec_flags(*old(d)),
        png_dec_ok(*old(d)) ==> {
            let step = png_step_of(
                png_dec_input(*old(d)),
                png_dec_flags(*old(d)).0,
                png_dec_flags(*old(d)).1,
                png_dec_pos(*old(d)),
            );
            match r {
                RowStep::Yield(v) => {
                    &&& step == RowStepAbs::Yield(v@)
                    &&& png_dec_pos(*final(d)) == png_dec_pos(*old(d)) + 1
                    &&& png_dec_ok(*final(d))
                },
                RowStep::End => {
                    &&& step == RowStepAbs::End
                    &&& png_dec_pos(*final(d)) == png_dec_pos(*old(d))
                    &&& png_dec_ok(*final(d))
                },
                RowStep::Fail(f) => step == RowStepAbs::Fail(f),
            }
        },
{
    match d.inner.next_interlaced_row() {
        Ok(Some(row)) => RowStep::Yield(row.data().to_vec()),
        Ok(None) => RowStep::End,
        Err(e) => RowStep::Fail(png_fail_of(&e)),
    }
}

/// Relies on png::Adam7Info::new and png::expand_interlaced_row: scatters
/// the pixels of one interlaced pass row into the full image buffer at the
/// positions the pass assigns them.  The preconditions keep every write
/// inside the buffer, per the index computation in the crate's source.
#[verifier::external_body]
fn adam7_expand(
    img: &mut Vec<u8>,
    row_stride: usize,
    row: &Vec<u8>,
    pass: u8,
    line: u32,
    width: u32,
    bits_per_pixel: u8,
)
    requires
        1 <= pass <= 7,
        width >= 1,
        spec_valid_bpp(bits_per_pixel),
        bits_per_pixel >= 8 ==> row@.len() as int % ((bits_per_pixel / 8) as int) == 0,
        row_stride >= spec_row_bytes(width, bits_per_pixel),
        (spec_y_sampling(pass) * line + spec_y_offset(pass) + 1) * row_stride <= old(img)@.len(),
    ensures
        final(img)@ == adam7_expanded(
            old(img)@,
            row_stride as int,
            row@,
            pass,
            line,
            width,
            bits_per_pixel,
        ),
        final(img)@.len() == old(img)@.len(),
{
    let info = png::Adam7Info::new(pass, line, width);
    png::expand_interlaced_row(img.as_mut_slice(), row_stride, row, &info, bits_per_pixel);
}

/// Output transformations requested from the decoder.
#[derive(Clone, Copy, Debug, PartialEq, Eq, Structural)]
pub struct TransformFlags {
    /// Expand palette indices and sub-byte depths, and materialize
    /// transparency as an alpha channel.
    pub expand: bool,
    /// Strip 16-bit grayscale samples to 8 bits.
    pub strip_16: bool,
}

/// Whether the expand transformation is requested for an image of this color
/// type and bit depth: alpha-carrying images only when their depth is below
/// one byte, plain color and grayscale images always (to materialize
/// transparency), palette images never.
pub open spec fn spec_expand_flag(color: ColorType, bit_depth: u8) -> bool {
    match color {
        ColorType::Rgba => bit_depth < 8,
        ColorType::GrayscaleAlpha => bit_depth < 8,
        ColorType::Rgb => true,
        ColorType::Grayscale => true,
        ColorType::Indexed => false,
    }
}

/// Whether 16-bit samples are stripped to 8: only for grayscale layouts.
pub open spec fn spec_strip16_flag(color: ColorType, bit_depth: u8) -> bool {
    bit_depth == 16 && (color == ColorType::Grayscale || color == ColorType::GrayscaleAlpha)
}

/// Decides the output transformations for an image header.
pub fn compute_transformations(color: ColorType, bit_depth: u8) -> (f: TransformFlags)
    ensures
        f.expand == spec_expand_flag(color, bit_depth),
        f.strip_16 == spec_strip16_flag(color, bit_depth),
{
    let expand = match color {
        ColorType::Rgba => bit_depth < 8,
        ColorType::GrayscaleAlpha => bit_depth < 8,
        ColorType::Rgb => true,
        ColorType::Grayscale => true,
        ColorType::Indexed => false,
    };
    let strip_16 = bit_depth == 16 && (match color {
        ColorType::Grayscale => true,
        ColorType::GrayscaleAlpha => true,
        _ => false,
    });
    TransformFlags { expand, strip_16 }
}

/// The transformations chosen for a header, as a pair `(expand, strip_16)`.
pub open spec fn spec_flags_of(i: IhdrInfo) -> (bool, bool) {
    match ColorType::spec_from_code(i.color_code) {
        Some(c) => (spec_expand_flag(c, i.bit_depth), spec_strip16_flag(c, i.bit_depth)),
        None => (false, false),
    }
}

/// Every row step before `k` yielded exactly `stride` bytes, and those bytes
/// sit at the row's place in `pixels`.
pub open spec fn rows_placed(
    data: Seq<u8>,
    ex: bool,
    st: bool,
    pixels: Seq<u8>,
    stride: int,
    k: int,
) -> bool {
    forall|r: int|
        #![trigger png_step_of(data, ex, st, r)]
        0 <= r < k ==> (png_step_of(data, ex, st, r) matches RowStepAbs::Yield(b) && b.len()
            == stride && pixels.subrange(r * stride, r * stride + stride) == b)
}

/// The pixel buffer of an interlaced decode after `k` row steps: zeros with
/// every yielded pass row scattered to its final positions.
pub open spec fn interlaced_upto(
    data: Seq<u8>,
    ex: bool,
    st: bool,
    w: u32,
    h: u32,
    stride: int,
    bpp: u8,
    k: int,
) -> Seq<u8>
    decreases k,
{
    if k <= 0 {
        Seq::new((stride * h) as nat, |i: int| 0u8)
    } else {
        let prev = interlaced_upto(data, ex, st, w, h, stride, bpp, k - 1);
        let pos = spec_pos_at(w, h, k - 1);
        match png_step_of(data, ex, st, k - 1) {
            RowStepAbs::Yield(b) => adam7_expanded(prev, stride, b, pos.pass, pos.line, w, bpp),
            RowStepAbs::End => prev,
            RowStepAbs::Fail(_) => prev,
        }
    }
}

/// What checking the output layout against the header yields: the layout
/// must name a known color, a pixel size the scatter step accepts, and row
/// and image byte counts that fit in memory.
pub open spec fn spec_layout_result(i: IhdrInfo, l: OutputLayout) -> DecodingResult {
    match ColorType::spec_from_code(l.color_code) {
        None => DecodingResult::OtherError,
        Some(oc) => {
            let bpp = oc.spec_channels() * l.bits_per_component;
            if !(bpp <= 64 && spec_valid_bpp(bpp as u8)) {
                DecodingResult::UnsupportedFeature
            } else if spec_row_bytes(i.width, bpp as u8) > usize::MAX as int {
                DecodingResult::LimitsExceeded
            } else if spec_row_bytes(i.width, bpp as u8) * i.height > usize::MAX as int {
                DecodingResult::LimitsExceeded
            } else {
                DecodingResult::Success
            }
        },
    }
}

/// The exact result of driving a sequential decode from row `from` to row
/// `upto`: success once every remaining row yields with the expected length,
/// otherwise the first failure.  A premature end of frame contradicts the
/// header's row count and counts as a format failure.
pub open spec fn spec_run_rows(
    data: Seq<u8>,
    ex: bool,
    st: bool,
    stride: int,
    from: int,
    upto: int,
) -> DecodingResult
    decreases upto - from,
{
    if from >= upto {
        DecodingResult::Success
    } else {
        match png_step_of(data, ex, st, from) {
            RowStepAbs::Yield(b) => {
                if b.len() == stride {
                    spec_run_rows(data, ex, st, stride, from + 1, upto)
                } else {
                    DecodingResult::FormatError
                }
            },
            RowStepAbs::End => DecodingResult::FormatError,
            RowStepAbs::Fail(f) => f.spec_to_result(),
        }
    }
}

/// The exact result of driving an interlaced decode from sequence position
/// `pos`, whose row request index is `k`, to the end of the pass sequence:
/// success once every remaining pass row yields whole pixels, otherwise
/// the first failure.  A premature end of frame contradicts the pass
/// geometry and counts as a format failure.
pub open spec fn spec_run_adam(
    data: Seq<u8>,
    ex: bool,
    st: bool,
    w: u32,
    h: u32,
    bpp: u8,
    k: int,
    pos: PassPos,
) -> DecodingResult
    decreases crate::adam7::pos_measure(h, pos)
        when pos_valid(w, h, pos)
        via spec_run_adam_dec
{
    if pos.pass == 8 {
        DecodingResult::Success
    } else {
        match png_step_of(data, ex, st, k) {
            RowStepAbs::Yield(b) => {
                if bpp >= 8 && b.len() as int % ((bpp / 8) as int) != 0 {
                    DecodingResult::FormatError
                } else {
                    spec_run_adam(data, ex, st, w, h, bpp, k + 1, spec_advance(w, h, pos))
                }
            },
            RowStepAbs::End => DecodingResult::FormatError,
            RowStepAbs::Fail(f) => f.spec_to_result(),
        }
    }
}

#[via_fn]
proof fn spec_run_adam_dec(
    data: Seq<u8>,
    ex: bool,
    st: bool,
    w: u32,
    h: u32,
    bpp: u8,
    k: int,
    pos: PassPos,
) {
    if pos_valid(w, h, pos) && pos.pass != 8 {
        crate::adam7::lemma_advance_valid(w, h, pos);
        crate::adam7::lemma_advance_measure(w, h, pos);
    }
}

/// A line of an active pass maps into the image: its progressive row index
/// is below the image height.
pub proof fn lemma_pass_line_in_image(height: u32, pass: u8, line: u32)
    requires
        1 <= pass <= 7,
        line < crate::adam7::spec_pass_lines(pass, height),
    ensures
        spec_y_sampling(pass) * line + spec_y_offset(pass) < height,
{
    let ys = spec_y_sampling(pass) as int;
    let yo = spec_y_offset(pass) as int;
    let lines = crate::adam7::spec_pass_lines(pass, height);
    assert(height > yo);
    let span = height - yo;
    // lines == ceil(span / ys); any line below it starts before the span ends
    assert(ys * line <= span - 1) by (nonlinear_arith)
        requires
            0 < ys <= 8,
            0 < span,
            line < (span + ys - 1) / ys,
            lines == (span + ys - 1) / ys,
    ;
}

/// The exact result of reopening a decoder over grown bytes for a session
/// that has already published its metadata: the longer prefix must parse
/// to the same header and the same output layout.
pub open spec fn spec_reopen_result(
    data: Seq<u8>,
    meta: IhdrInfo,
    layout: OutputLayout,
    ex: bool,
    st: bool,
) -> DecodingResult {
    match png_ihdr_of(data) {
        IhdrProbe::Fail(f) => f.spec_to_result(),
        IhdrProbe::Ihdr(i) => {
            if i != meta {
                DecodingResult::FormatError
            } else {
                match png_open_of(data, ex, st) {
                    OpenAbs::Fail(f) => f.spec_to_result(),
                    OpenAbs::Open(l) => {
                        if l != layout {
                            DecodingResult::FormatError
                        } else {
                            DecodingResult::Success
                        }
                    },
                }
            }
        },
    }
}

/// The exact result of a metadata read over the bytes `data`: the header
/// probe decides first, then the decoder open, then the layout checks.
pub open spec fn spec_metadata_result(data: Seq<u8>) -> DecodingResult {
    match png_ihdr_of(data) {
        IhdrProbe::Fail(f) => f.spec_to_result(),
        IhdrProbe::Ihdr(i) => {
            if ColorType::spec_from_code(i.color_code) is None {
                DecodingResult::FormatError
            } else if i.width == 0 || i.height == 0 {
                DecodingResult::FormatError
            } else {
                match png_open_of(data, spec_flags_of(i).0, spec_flags_of(i).1) {
                    OpenAbs::Fail(f) => f.spec_to_result(),
                    OpenAbs::Open(l) => spec_layout_result(i, l),
                }
            }
        },
    }
}

/// Display duration in milliseconds of an animation frame whose delay is
/// the fraction `delay_num / delay_den` of a second.  A zero denominator
/// reads as one hundred, per the animated-image convention, so the result
/// is then whole centiseconds.
pub fn frame_duration_ms(delay_num: u16, delay_den: u16) -> (ms: u32)
    ensures
        delay_den == 0 ==> ms == 10 * delay_num as int,
        delay_den != 0 ==> ms == 1000 * delay_num as int / delay_den as int,
{
    if delay_den == 0 {
        10 * delay_num as u32
    } else {
        1000 * delay_num as u32 / delay_den as u32
    }
}

/// A resumable PNG decode session.
///
/// The session owns its byte source and buffers everything the source has
/// produced.  Metadata and pixel reads either complete, report
/// `IncompleteInput` (feed more bytes and call again), or fail terminally;
/// progress survives incomplete attempts.
pub struct PngSession {
    /// The byte source; `feed` pushes newly available bytes into it.
    pub source: ByteSource,
    /// Every byte pulled from the source so far.
    pub buffered: Vec<u8>,
    /// Lifecycle stage; only ever advances.
    pub phase: Phase,
    /// The terminal code once the session has failed for good.
    pub failure: Option<DecodingResult>,
    /// Image header facts; fixed once `phase` reaches `MetadataReady`.
    pub meta: IhdrInfo,
    /// `meta.color_code`, decoded.
    pub color: ColorType,
    /// Output row layout after transformations.
    pub layout: OutputLayout,
    /// `layout.color_code`, decoded.
    pub out_color: ColorType,
    /// Bits per output pixel.
    pub out_bpp: u8,
    /// Bytes per output row.
    pub stride: usize,
    /// Bytes in a full decoded frame: `stride * meta.height`.
    pub total_bytes: usize,
    /// The live decoder, when one is open over exactly `buffered`.
    pub dec: Option<PngDecoder>,
    /// How many rows the live decode run has yielded.
    pub rows_yielded: u64,
    /// Interlace cursor: the pass and line of the next expected row.
    pub cursor: PassPos,
    /// Bookkeeping for rows already reported through `pull_new_rows`.
    pub tracker: RowTracker,
    /// The session-owned pixel buffer (whole-image mode only).
    pub pixels: Vec<u8>,
    /// Whole-image or row-at-a-time driving; fixed by the first pixel call.
    pub mode: DriveMode,
    /// Geometry of the last row `next_interlaced_row` handed out.
    pub last_pass: Option<PassPos>,
    /// The buffered bytes at the moment the frame completed.
    pub done_input: Ghost<Seq<u8>>,
}

impl PngSession {
    /// The transformations this session asks of the decoder.
    pub open spec fn spec_flags(self) -> (bool, bool) {
        (
            spec_expand_flag(self.color, self.meta.bit_depth),
            spec_strip16_flag(self.color, self.meta.bit_depth),
        )
    }

    /// Consistency of the stored metadata, once it is set.
    pub open spec fn meta_ok(self) -> bool {
        &&& ColorType::spec_from_code(self.meta.color_code) == Some(self.color)
        &&& ColorType::spec_from_code(self.layout.color_code) == Some(self.out_color)
        &&& self.meta.width >= 1
        &&& self.meta.height >= 1
        &&& self.out_bpp == self.out_color.spec_channels() * self.layout.bits_per_component
        &&& spec_valid_bpp(self.out_bpp)
        &&& self.stride == spec_row_bytes(self.meta.width, self.out_bpp)
        &&& self.total_bytes == self.stride * self.meta.height
    }

    /// The pixel buffer reflects the first `rows_yielded` row steps of a
    /// decode over `data`.
    pub open spec fn content_ok(self, data: Seq<u8>) -> bool {
        &&& self.pixels@.len() == self.total_bytes
        &&& if self.meta.interlaced {
            self.pixels@ == interlaced_upto(
                data,
                self.spec_flags().0,
                self.spec_flags().1,
                self.meta.width,
                self.meta.height,
                self.stride as int,
                self.out_bpp,
                self.rows_yielded as int,
            )
        } else {
            rows_placed(
                data,
                self.spec_flags().0,
                self.spec_flags().1,
                self.pixels@,
                self.stride as int,
                self.rows_yielded as int,
            )
        }
    }

    /// A live decoder agrees with the session: opened over exactly the
    /// buffered bytes, with the session's transformations, positioned at the
    /// session's row count.
    pub open spec fn dec_sync(self, d: PngDecoder) -> bool {
        &&& png_dec_ok(d)
        &&& png_dec_input(d) == self.buffered@
        &&& png_dec_flags(d) == self.spec_flags()
        &&& png_dec_pos(d) == self.rows_yielded as int
        &&& png_ihdr_of(self.buffered@) == IhdrProbe::Ihdr(self.meta)
        &&& png_open_of(self.buffered@, self.spec_flags().0, self.spec_flags().1)
            == OpenAbs::Open(self.layout)
    }

    /// The interlace cursor sits at position `rows_yielded` of the pass
    /// sequence, the sequence was not finished before that, and the row
    /// count is bounded by how far the cursor has descended the sequence's
    /// ranking — which keeps the count finite.
    pub open spec fn cursor_sync(self) -> bool {
        &&& self.cursor == spec_pos_at(self.meta.width, self.meta.height, self.rows_yielded as int)
        &&& self.rows_yielded > 0 ==> spec_pos_at(
            self.meta.width,
            self.meta.height,
            self.rows_yielded as int - 1,
        ).pass != 8
        &&& self.rows_yielded as int + crate::adam7::pos_measure(self.meta.height, self.cursor)
            <= crate::adam7::pos_measure(
            self.meta.height,
            spec_pos_at(self.meta.width, self.meta.height, 0),
        )
    }

    /// The session invariant: every public operation preserves it.
    pub open spec fn inv(self) -> bool {
        &&& self.source.wf()
        &&& self.buffered@ + self.source.pending() == self.source.fed()
        &&& (self.failure matches Some(c) ==> c.is_terminal())
        &&& (phase_index(self.phase) >= 2 ==> self.meta_ok())
        &&& (phase_index(self.phase) < 2 ==> {
            &&& self.dec is None
            &&& self.pixels@.len() == 0
            &&& self.last_pass is None
        })
        &&& (phase_index(self.phase) < 3 ==> self.mode == DriveMode::Undriven)
        &&& (self.mode == DriveMode::Undriven ==> self.rows_yielded == 0)
        &&& (self.dec matches Some(d) ==> self.dec_sync(d))
        &&& (self.mode == DriveMode::Whole ==> {
            &&& phase_index(self.phase) >= 3
            &&& (self.failure is None ==> self.pixels@.len() == self.total_bytes)
            &&& self.last_pass is None
        })
        &&& (self.mode != DriveMode::Whole ==> self.pixels@.len() == 0)
        &&& (self.mode == DriveMode::Whole && self.failure is None && self.dec is Some
            ==> self.content_ok(self.buffered@))
        &&& (self.meta.interlaced ==> self.cursor_sync())
        &&& (!self.meta.interlaced ==> self.rows_yielded <= self.meta.height)
        &&& self.tracker.wf()
        &&& (phase_index(self.phase) >= 2 ==> {
            &&& self.tracker.orientation == Orientation::TopDown
            &&& self.tracker.height == self.meta.height
            &&& self.tracker.row_stride == self.stride
        })
        &&& (self.last_pass matches Some(g) ==> {
            &&& phase_index(self.phase) >= 2
            &&& self.mode == DriveMode::Manual
            &&& self.meta.interlaced
            &&& 1 <= g.pass <= 7
            &&& g.line < crate::adam7::spec_pass_lines(g.pass, self.meta.height)
        })
        &&& (self.phase == Phase::PixelsReady ==> {
            &&& self.failure is None
            &&& self.mode == DriveMode::Whole
            &&& self.done_input@ == self.buffered@
            &&& png_ihdr_of(self.done_input@) == IhdrProbe::Ihdr(self.meta)
            &&& png_open_of(self.done_input@, self.spec_flags().0, self.spec_flags().1)
                == OpenAbs::Open(self.layout)
            &&& self.content_ok(self.done_input@)
            &&& (if self.meta.interlaced {
                spec_pos_at(self.meta.width, self.meta.height, self.rows_yielded as int).pass == 8
            } else {
                self.rows_yielded == self.meta.height
            })
        })
    }

    /// Creates a session over a fresh byte source.
    pub fn new(source: ByteSource) -> (s: PngSession)
        requires
            source.wf(),
            source.pos == 0,
        ensures
            s.inv(),
            s.phase == Phase::Fresh,
            s.failure is None,
            s.mode == DriveMode::Undriven,
            s.source.fed() == source.fed(),
    {
        let s = PngSession {
            source,
            buffered: Vec::new(),
            phase: Phase::Fresh,
            failure: None,
            meta: IhdrInfo { width: 0, height: 0, color_code: 0, bit_depth: 0, interlaced: false },
            color: ColorType::Grayscale,
            layout: OutputLayout { color_code: 0, bits_per_component: 0 },
            out_color: ColorType::Grayscale,
            out_bpp: 0,
            stride: 0,
            total_bytes: 0,
            dec: None,
            rows_yielded: 0,
            cursor: PassPos { pass: 8, line: 0 },
            tracker: RowTracker::new(Orientation::TopDown, 0, 0),
            pixels: Vec::new(),
            mode: DriveMode::Undriven,
            last_pass: None,
            done_input: Ghost(Seq::empty()),
        };
        proof {
            assert(s.buffered@ + s.source.pending() =~= s.source.fed());
        }
        s
    }

    /// Makes newly available bytes visible to the session.  Nothing is
    /// decoded here; the next decode call will use them.
    pub fn feed(&mut self, bytes: &[u8])
        requires
            old(self).inv(),
        ensures
            final(self).inv(),
            final(self).source.fed() == old(self).source.fed() + bytes@,
            final(self).phase == old(self).phase,
            final(self).failure == old(self).failure,
            final(self).mode == old(self).mode,
            final(self).meta == old(self).meta,
            final(self).layout == old(self).layout,
            final(self).stride == old(self).stride,
            final(self).pixels == old(self).pixels,
            final(self).rows_yielded == old(self).rows_yielded,
            final(self).tracker == old(self).tracker,
            final(self).buffered == old(self).buffered,
            final(self).done_input == old(self).done_input,
            final(self).last_pass == old(self).last_pass,
    {
        self.source.feed(bytes);
        proof {
            let fin = *final(self);
            assert(fin.buffered@ + fin.source.pending() =~= fin.source.fed());
        }
    }

    /// Pulls every pending byte of the source into the session's buffer.
    /// A decoder opened over the shorter prefix is dropped: the next decode
    /// attempt reopens over the full buffer.
    fn drain_source(&mut self)
        requires
            old(self).inv(),
            old(self).phase != Phase::PixelsReady,
        ensures
            final(self).inv(),
            final(self).buffered@ == old(self).source.fed(),
            final(self).source.fed() == old(self).source.fed(),
            final(self).source.pending().len() == 0,
            final(self).phase == old(self).phase,
            final(self).failure == old(self).failure,
            final(self).mode == old(self).mode,
            final(self).meta == old(self).meta,
            final(self).color == old(self).color,
            final(self).layout == old(self).layout,
            final(self).out_color == old(self).out_color,
            final(self).out_bpp == old(self).out_bpp,
            final(self).stride == old(self).stride,
            final(self).total_bytes == old(self).total_bytes,
            final(self).pixels == old(self).pixels,
            final(self).rows_yielded == old(self).rows_yielded,
            final(self).cursor == old(self).cursor,
            final(self).tracker == old(self).tracker,
            final(self).last_pass == old(self).last_pass,
            final(self).done_input == old(self).done_input,
            old(self).source.pending().len() == 0 ==> final(self).dec == old(self).dec,
            old(self).source.pending().len() > 0 ==> final(self).dec is None,
    {
        let n = self.source.available();
        if n > 0 {
            self.dec = None;
            let mut newly = self.source.take_pending();
            self.buffered.append(&mut newly);
        }
        proof {
            assert(final(self).buffered@ == old(self).source.fed());
        }
    }

    /// Records a terminal failure and discards any partial pixel data, so a
    /// caller that ignores the code cannot read stale pixels as valid.
    fn fail_with(&mut self, code: DecodingResult) -> (r: DecodingResult)
        requires
            old(self).inv(),
            code.is_terminal(),
            old(self).phase != Phase::PixelsReady,
        ensures
            final(self).inv(),
            r == code,
            final(self).failure == Some(code),
            final(self).phase == old(self).phase,
            final(self).mode == old(self).mode,
            final(self).meta == old(self).meta,
            final(self).color == old(self).color,
            final(self).layout == old(self).layout,
            final(self).out_color == old(self).out_color,
            final(self).out_bpp == old(self).out_bpp,
            final(self).stride == old(self).stride,
            final(self).total_bytes == old(self).total_bytes,
            final(self).tracker == old(self).tracker,
            final(self).rows_yielded == old(self).rows_yielded,
            final(self).cursor == old(self).cursor,
            final(self).last_pass == old(self).last_pass,
            final(self).done_input == old(self).done_input,
            final(self).source == old(self).source,
            final(self).buffered == old(self).buffered,
            final(self).pixels@.len() == 0,
            final(self).dec is None,
    {
        self.failure = Some(code);
        self.pixels = Vec::new();
        self.dec = None;
        code
    }

    /// Attempts to read the image metadata.
    ///
    /// Returns `Success` as soon as the header and everything up to the
    /// first image-data chunk has been parsed, populating the dimensions and
    /// color layout; from then on the call is an idempotent no-op.  Returns
    /// `IncompleteInput` while the bytes fed so far are only a valid prefix;
    /// the caller feeds more bytes and calls again, losing nothing.  Any
    /// other code is terminal for the session.  The outcome is exactly
    /// `spec_metadata_result` of all bytes fed so far.
    pub fn read_metadata(&mut self) -> (r: DecodingResult)
        requires
            old(self).inv(),
        ensures
            final(self).inv(),
            phase_index(final(self).phase) >= phase_index(old(self).phase),
            final(self).source.fed() == old(self).source.fed(),
            final(self).mode == old(self).mode,
            old(self).failure matches Some(c) ==> r == c && *final(self) == *old(self),
            old(self).failure is None && phase_index(old(self).phase) >= 2 ==> r
                == DecodingResult::Success && *final(self) == *old(self),
            old(self).failure is None && phase_index(old(self).phase) < 2 ==> {
                &&& r == spec_metadata_result(old(self).source.fed())
                &&& (r == DecodingResult::Success ==> {
                    &&& final(self).phase == Phase::MetadataReady
                    &&& final(self).failure is None
                    &&& png_ihdr_of(old(self).source.fed()) == IhdrProbe::Ihdr(final(self).meta)
                    &&& png_open_of(
                        old(self).source.fed(),
                        final(self).spec_flags().0,
                        final(self).spec_flags().1,
                    ) == OpenAbs::Open(final(self).layout)
                })
                &&& (r == DecodingResult::IncompleteInput ==> {
                    &&& final(self).phase == Phase::MetadataPending
                    &&& final(self).failure is None
                })
                &&& (r.is_terminal() ==> final(self).failure == Some(r))
            },
    {
        match self.failure {
            Some(c) => {
                return c;
            },
            None => {},
        }
        match self.phase {
            Phase::MetadataReady | Phase::PixelsPending | Phase::PixelsReady => {
                return DecodingResult::Success;
            },
            _ => {},
        }
        self.drain_source();
        self.phase = Phase::MetadataPending;
        match png_peek_ihdr(&self.buffered) {
            IhdrProbe::Fail(f) => {
                let r = f.to_result();
                if r.terminal() {
                    return self.fail_with(r);
                }
                r
            },
            IhdrProbe::Ihdr(info) => {
                let color = match ColorType::from_code(info.color_code) {
                    Some(c) => c,
                    None => {
                        return self.fail_with(DecodingResult::FormatError);
                    },
                };
                if info.width == 0 || info.height == 0 {
                    return self.fail_with(DecodingResult::FormatError);
                }
                let fl = compute_transformations(color, info.bit_depth);
                match png_open(&self.buffered, fl.expand, fl.strip_16) {
                    PngOpen::Fail(f) => {
                        let r = f.to_result();
                        if r.terminal() {
                            return self.fail_with(r);
                        }
                        r
                    },
                    PngOpen::Open(d, lay) => {
                        let out_color = match ColorType::from_code(lay.color_code) {
                            Some(c) => c,
                            None => {
                                return self.fail_with(DecodingResult::OtherError);
                            },
                        };
                        let ch = out_color.channels();
                        assert(ch * lay.bits_per_component as u32 <= 4 * 255) by (nonlinear_arith)
                            requires
                                ch <= 4,
                                lay.bits_per_component <= 255,
                        ;
                        let bpp32: u32 = ch * (lay.bits_per_component as u32);
                        if bpp32 > 64 {
                            return self.fail_with(DecodingResult::UnsupportedFeature);
                        }
                        let bpp = bpp32 as u8;
                        if !valid_bpp(bpp) {
                            return self.fail_with(DecodingResult::UnsupportedFeature);
                        }
                        let stride64 = row_bytes_u64(info.width, bpp);
                        if stride64 > usize::MAX as u64 {
                            return self.fail_with(DecodingResult::LimitsExceeded);
                        }
                        assert((stride64 as u128) * (info.height as u128) < u128::MAX)
                            by (nonlinear_arith)
                            requires
                                stride64 <= u64::MAX,
                                info.height <= u32::MAX,
                        ;
                        let total128: u128 = (stride64 as u128) * (info.height as u128);
                        if total128 > usize::MAX as u128 {
                            return self.fail_with(DecodingResult::LimitsExceeded);
                        }
                        proof {
                            assert(stride64 as int * info.height as int == total128 as int);
                        }
                        let stride = stride64 as usize;
                        let total = total128 as usize;
                        self.meta = info;
                        self.color = color;
                        self.layout = lay;
                        self.out_color = out_color;
                        self.out_bpp = bpp;
                        self.stride = stride;
                        self.total_bytes = total;
                        self.dec = Some(d);
                        self.rows_yielded = 0;
                        self.cursor = first_pos_from(info.width, info.height, 1);
                        self.tracker = RowTracker::new(Orientation::TopDown, info.height, stride);
                        self.phase = Phase::MetadataReady;
                        DecodingResult::Success
                    },
                }
            },
        }
    }

    /// Reopens a decoder over the full buffer after new bytes arrived.  The
    /// longer prefix must still parse to the same metadata the session
    /// already promised its caller; a decode run restarts from row zero.
    fn reopen_whole(&mut self) -> (r: DecodingResult)
        requires
            old(self).inv(),
            old(self).failure is None,
            old(self).mode == DriveMode::Whole,
            old(self).phase == Phase::PixelsPending,
            old(self).dec is None,
            old(self).pixels@.len() == old(self).total_bytes,
        ensures
            final(self).inv(),
            final(self).source == old(self).source,
            final(self).buffered == old(self).buffered,
            final(self).phase == Phase::PixelsPending,
            final(self).mode == DriveMode::Whole,
            final(self).meta == old(self).meta,
            final(self).color == old(self).color,
            final(self).layout == old(self).layout,
            final(self).out_color == old(self).out_color,
            final(self).out_bpp == old(self).out_bpp,
            final(self).stride == old(self).stride,
            final(self).total_bytes == old(self).total_bytes,
            final(self).tracker == old(self).tracker,
            r == spec_reopen_result(
                old(self).buffered@,
                old(self).meta,
                old(self).layout,
                old(self).spec_flags().0,
                old(self).spec_flags().1,
            ),
            r == DecodingResult::Success ==> {
                &&& final(self).failure is None
                &&& final(self).dec is Some
                &&& final(self).rows_yielded == 0
                &&& final(self).pixels@.len() == final(self).total_bytes
            },
            r == DecodingResult::IncompleteInput ==> {
                &&& final(self).failure is None
                &&& final(self).dec is None
                &&& final(self).pixels == old(self).pixels
            },
            r != DecodingResult::Success && r != DecodingResult::IncompleteInput ==> {
                &&& r.is_terminal()
                &&& final(self).failure == Some(r)
                &&& final(self).pixels@.len() == 0
            },
    {
        match png_peek_ihdr(&self.buffered) {
            IhdrProbe::Fail(f) => {
                let r = f.to_result();
                if r.terminal() {
                    return self.fail_with(r);
                }
                r
            },
            IhdrProbe::Ihdr(info) => {
                if info != self.meta {
                    return self.fail_with(DecodingResult::FormatError);
                }
                let fl = compute_transformations(self.color, self.meta.bit_depth);
                match png_open(&self.buffered, fl.expand, fl.strip_16) {
                    PngOpen::Fail(f) => {
                        let r = f.to_result();
                        if r.terminal() {
                            return self.fail_with(r);
                        }
                        r
                    },
                    PngOpen::Open(d, lay) => {
                        if lay != self.layout {
                            return self.fail_with(DecodingResult::FormatError);
                        }
                        self.dec = Some(d);
                        self.rows_yielded = 0;
                        self.cursor = first_pos_from(self.meta.width, self.meta.height, 1);
                        if self.meta.interlaced {
                            // the scatter starts over, so the buffer must too
                            self.pixels = zero_vec(self.total_bytes);
                            proof {
                                assert(final(self).pixels@ =~= Seq::new(
                                    (final(self).stride as int * final(self).meta.height) as nat,
                                    |i: int| 0u8,
                                ));
                            }
                        }
                        DecodingResult::Success
                    },
                }
            },
        }
    }

    /// Drives a non-interlaced decode to the end of the frame or to the
    /// first failure, placing each yielded row at its position in the pixel
    /// buffer.  The result is exactly `spec_run_rows` over the buffer.
    fn decode_sequential(&mut self, dec: PngDecoder) -> (r: DecodingResult)
        requires
            old(self).inv(),
            old(self).failure is None,
            old(self).mode == DriveMode::Whole,
            old(self).phase == Phase::PixelsPending,
            old(self).dec is None,
            !old(self).meta.interlaced,
            old(self).dec_sync(dec),
            old(self).content_ok(old(self).buffered@),
            old(self).buffered@ == old(self).source.fed(),
        ensures
            final(self).inv(),
            final(self).source == old(self).source,
            final(self).buffered == old(self).buffered,
            final(self).meta == old(self).meta,
            final(self).color == old(self).color,
            final(self).layout == old(self).layout,
            final(self).out_color == old(self).out_color,
            final(self).out_bpp == old(self).out_bpp,
            final(self).stride == old(self).stride,
            final(self).total_bytes == old(self).total_bytes,
            final(self).mode == DriveMode::Whole,
            final(self).tracker == old(self).tracker,
            phase_index(final(self).phase) >= 3,
            r == spec_run_rows(
                old(self).buffered@,
                old(self).spec_flags().0,
                old(self).spec_flags().1,
                old(self).stride as int,
                old(self).rows_yielded as int,
                old(self).meta.height as int,
            ),
            r == DecodingResult::Success ==> {
                &&& final(self).phase == Phase::PixelsReady
                &&& final(self).done_input@ == old(self).source.fed()
            },
            r == DecodingResult::IncompleteInput ==> {
                &&& final(self).phase == Phase::PixelsPending
                &&& final(self).failure is None
                &&& final(self).pixels@.len() == final(self).total_bytes
            },
            r.is_terminal() ==> final(self).failure == Some(r) && final(self).pixels@.len() == 0,
            r == DecodingResult::Success || r == DecodingResult::IncompleteInput
                || r.is_terminal(),
    {
        let mut d = dec;
        let ghost data = self.buffered@;
        let ghost ex = self.spec_flags().0;
        let ghost st = self.spec_flags().1;
        let h = self.meta.height;
        while self.rows_yielded < h as u64
            invariant
                self.inv(),
                self.failure is None,
                self.mode == DriveMode::Whole,
                self.phase == Phase::PixelsPending,
                self.dec is None,
                self.buffered@ == data,
                self.meta == old(self).meta,
                self.color == old(self).color,
                self.layout == old(self).layout,
                self.out_color == old(self).out_color,
                self.out_bpp == old(self).out_bpp,
                self.stride == old(self).stride,
                self.total_bytes == old(self).total_bytes,
                self.tracker == old(self).tracker,
                self.source == old(self).source,
                self.buffered == old(self).buffered,
                h == self.meta.height,
                ex == self.spec_flags().0,
                st == self.spec_flags().1,
                !self.meta.interlaced,
                self.dec_sync(d),
                self.content_ok(data),
                self.rows_yielded <= h,
                spec_run_rows(data, ex, st, self.stride as int, old(self).rows_yielded as int, h as int)
                    == spec_run_rows(data, ex, st, self.stride as int, self.rows_yielded as int, h as int),
            decreases h - self.rows_yielded,
        {
            match png_next_row(&mut d) {
                RowStep::Yield(v) => {
                    if v.len() != self.stride {
                        return self.fail_with(DecodingResult::FormatError);
                    }
                    proof {
                        broadcast use vstd::arithmetic::mul::lemma_mul_inequality;
                        broadcast use vstd::arithmetic::mul::lemma_mul_is_distributive_add_other_way;

                        assert((self.rows_yielded as int + 1) * self.stride as int <= self.meta.height
                            as int * self.stride as int);
                        assert((self.rows_yielded as int + 1) * self.stride as int
                            == self.rows_yielded as int * self.stride as int + self.stride as int);
                    }
                    let row_idx = self.rows_yielded as usize;
                    let offset = row_idx * self.stride;
                    let ghost pixels_before = self.pixels@;
                    splice_at(&mut self.pixels, offset, &v);
                    proof {
                        broadcast use vstd::arithmetic::mul::lemma_mul_inequality;
                        broadcast use vstd::arithmetic::mul::lemma_mul_is_distributive_add_other_way;

                        let r0 = self.rows_yielded as int;
                        let stride = self.stride as int;
                        assert forall|rr: int|
                            #![trigger png_step_of(data, ex, st, rr)]
                            0 <= rr < r0 + 1 implies (png_step_of(data, ex, st, rr)
                            matches RowStepAbs::Yield(b) && b.len() == stride
                            && self.pixels@.subrange(rr * stride, rr * stride + stride) == b) by {
                            if rr < r0 {
                                assert(png_step_of(data, ex, st, rr) matches RowStepAbs::Yield(b)
                                    && b.len() == stride && pixels_before.subrange(
                                    rr * stride,
                                    rr * stride + stride,
                                ) == b);
                                assert((rr + 1) * stride <= r0 * stride);
                                assert((rr + 1) * stride == rr * stride + stride);
                                crate::source::lemma_splice_subranges(
                                    pixels_before,
                                    r0 * stride,
                                    v@,
                                    rr * stride,
                                    rr * stride + stride,
                                );
                            } else {
                                crate::source::lemma_splice_subranges(
                                    pixels_before,
                                    r0 * stride,
                                    v@,
                                    0,
                                    0,
                                );
                            }
                        }
                    }
                    self.rows_yielded = self.rows_yielded + 1;
                },
                RowStep::End => {
                    return self.fail_with(DecodingResult::FormatError);
                },
                RowStep::Fail(f) => {
                    let r = f.to_result();
                    if r.terminal() {
                        return self.fail_with(r);
                    }
                    return r;
                },
            }
        }
        self.dec = Some(d);
        self.phase = Phase::PixelsReady;
        self.done_input = Ghost(data);
        DecodingResult::Success
    }

    /// Drives an interlaced decode to the end of the frame or to the first
    /// failure, scattering every yielded pass row into the pixel buffer at
    /// the positions its pass assigns.
    fn decode_interlaced(&mut self, dec: PngDecoder) -> (r: DecodingResult)
        requires
            old(self).inv(),
            old(self).failure is None,
            old(self).mode == DriveMode::Whole,
            old(self).phase == Phase::PixelsPending,
            old(self).dec is None,
            old(self).meta.interlaced,
            old(self).dec_sync(dec),
            old(self).cursor_sync(),
            old(self).content_ok(old(self).buffered@),
            old(self).buffered@ == old(self).source.fed(),
        ensures
            final(self).inv(),
            final(self).source == old(self).source,
            final(self).buffered == old(self).buffered,
            final(self).meta == old(self).meta,
            final(self).color == old(self).color,
            final(self).layout == old(self).layout,
            final(self).out_color == old(self).out_color,
            final(self).out_bpp == old(self).out_bpp,
            final(self).stride == old(self).stride,
            final(self).total_bytes == old(self).total_bytes,
            final(self).mode == DriveMode::Whole,
            final(self).tracker == old(self).tracker,
            phase_index(final(self).phase) >= 3,
            r == DecodingResult::Success ==> {
                &&& final(self).phase == Phase::PixelsReady
                &&& final(self).done_input@ == old(self).source.fed()
            },
            r == DecodingResult::IncompleteInput ==> {
                &&& final(self).phase == Phase::PixelsPending
                &&& final(self).failure is None
                &&& final(self).pixels@.len() == final(self).total_bytes
            },
            r.is_terminal() ==> final(self).failure == Some(r) && final(self).pixels@.len() == 0,
            r == DecodingResult::Success || r == DecodingResult::IncompleteInput
                || r.is_terminal(),
            r == spec_run_adam(
                old(self).buffered@,
                old(self).spec_flags().0,
                old(self).spec_flags().1,
                old(self).meta.width,
                old(self).meta.height,
                old(self).out_bpp,
                old(self).rows_yielded as int,
                old(self).cursor,
            ),
    {
        let mut d = dec;
        let ghost data = self.buffered@;
        let ghost ex = self.spec_flags().0;
        let ghost st = self.spec_flags().1;
        let w = self.meta.width;
        let h = self.meta.height;
        let bpp = self.out_bpp;
        proof {
            crate::adam7::lemma_pos_at_valid(w, h, self.rows_yielded as int);
        }
        while self.cursor.pass != 8
            invariant
                self.inv(),
                self.failure is None,
                self.mode == DriveMode::Whole,
                self.phase == Phase::PixelsPending,
                self.dec is None,
                self.buffered@ == data,
                self.meta == old(self).meta,
                self.color == old(self).color,
                self.layout == old(self).layout,
                self.out_color == old(self).out_color,
                self.out_bpp == old(self).out_bpp,
                self.stride == old(self).stride,
                self.total_bytes == old(self).total_bytes,
                self.tracker == old(self).tracker,
                self.source == old(self).source,
                self.buffered == old(self).buffered,
                w == self.meta.width,
                h == self.meta.height,
                bpp == self.out_bpp,
                ex == self.spec_flags().0,
                st == self.spec_flags().1,
                self.meta.interlaced,
                self.dec_sync(d),
                self.cursor_sync(),
                pos_valid(w, h, self.cursor),
                self.content_ok(data),
                spec_run_adam(data, ex, st, w, h, bpp, old(self).rows_yielded as int, old(self).cursor)
                    == spec_run_adam(data, ex, st, w, h, bpp, self.rows_yielded as int, self.cursor),
            decreases 8 - self.cursor.pass, crate::adam7::spec_pass_lines(self.cursor.pass, h)
                - self.cursor.line,
        {
            match png_next_row(&mut d) {
                RowStep::Yield(v) => {
                    if bpp >= 8 && v.len() % ((bpp / 8) as usize) != 0 {
                        return self.fail_with(DecodingResult::FormatError);
                    }
                    proof {
                        crate::adam7::lemma_pos_at_valid(w, h, 0);
                        crate::adam7::lemma_measure_bounds(w, h, spec_pos_at(w, h, 0));
                        crate::adam7::lemma_measure_bounds(w, h, self.cursor);
                        crate::adam7::lemma_advance_measure(w, h, self.cursor);
                    }
                    proof {
                        broadcast use vstd::arithmetic::mul::lemma_mul_inequality;

                        lemma_pass_line_in_image(h, self.cursor.pass, self.cursor.line);
                        assert((spec_y_sampling(self.cursor.pass) * self.cursor.line
                            + spec_y_offset(self.cursor.pass) + 1) * self.stride as int <= h as int
                            * self.stride as int);
                        assert(h as int * self.stride as int == self.stride as int * h as int)
                            by (nonlinear_arith);
                    }
                    let pass = self.cursor.pass;
                    let line = self.cursor.line;
                    adam7_expand(&mut self.pixels, self.stride, &v, pass, line, w, bpp);
                    proof {
                        assert(self.pixels@ == interlaced_upto(
                            data,
                            ex,
                            st,
                            w,
                            h,
                            self.stride as int,
                            bpp,
                            self.rows_yielded as int + 1,
                        ));
                        crate::adam7::lemma_pos_at_valid(w, h, self.rows_yielded as int + 1);
                    }
                    let next = advance_pos(w, h, self.cursor);
                    self.cursor = next;
                    self.rows_yielded = self.rows_yielded + 1;
                },
                RowStep::End => {
                    // the decoder believes the frame is over while passes
                    // remain: the stream contradicts its own header
                    return self.fail_with(DecodingResult::FormatError);
                },
                RowStep::Fail(f) => {
                    let r = f.to_result();
                    if r.terminal() {
                        return self.fail_with(r);
                    }
                    return r;
                },
            }
        }
        self.dec = Some(d);
        self.phase = Phase::PixelsReady;
        self.done_input = Ghost(data);
        DecodingResult::Success
    }

    /// Attempts to decode the whole frame into the session's pixel buffer.
    ///
    /// Requires metadata to be ready; calling earlier reports
    /// `ParameterError` and changes nothing.  Once the frame is complete the
    /// call is an idempotent no-op.  On `IncompleteInput` the pixel buffer
    /// and the decode progress are retained, so nothing is lost between
    /// attempts; rows already complete can be collected at any time through
    /// `pull_new_rows`.  On a terminal failure the pixel buffer is
    /// discarded, so stale partial data can never be mistaken for pixels.
    /// On `Success` the buffer holds, byte for byte, the image the fed bytes
    /// decode to.
    #[verifier::rlimit(80)]
    pub fn read_image_data(&mut self) -> (r: DecodingResult)
        requires
            old(self).inv(),
        ensures
            final(self).inv(),
            phase_index(final(self).phase) >= phase_index(old(self).phase),
            final(self).source.fed() == old(self).source.fed(),
            old(self).failure matches Some(c) ==> r == c && *final(self) == *old(self),
            old(self).failure is None && phase_index(old(self).phase) < 2 ==> r
                == DecodingResult::ParameterError && *final(self) == *old(self),
            old(self).failure is None && old(self).mode == DriveMode::Manual ==> r
                == DecodingResult::ParameterError && *final(self) == *old(self),
            old(self).failure is None && old(self).phase == Phase::PixelsReady ==> r
                == DecodingResult::Success && *final(self) == *old(self),
            old(self).failure is None && phase_index(old(self).phase) >= 2 && old(self).mode
                != DriveMode::Manual && old(self).phase != Phase::PixelsReady ==> {
                &&& final(self).meta == old(self).meta
                &&& final(self).layout == old(self).layout
                &&& final(self).mode == DriveMode::Whole
                &&& (r == DecodingResult::Success ==> {
                    &&& final(self).phase == Phase::PixelsReady
                    &&& final(self).done_input@ == old(self).source.fed()
                    &&& final(self).content_ok(old(self).source.fed())
                })
                &&& (r == DecodingResult::IncompleteInput ==> {
                    &&& final(self).phase == Phase::PixelsPending
                    &&& final(self).failure is None
                    &&& final(self).pixels@.len() == final(self).total_bytes
                })
                &&& (r.is_terminal() ==> {
                    &&& final(self).failure == Some(r)
                    &&& final(self).pixels@.len() == 0
                })
                &&& (r == DecodingResult::Success || r == DecodingResult::IncompleteInput
                    || r.is_terminal())
                // for a sequential image the result code itself is pinned:
                // it is a function of the bytes fed and the progress so far
                &&& (!old(self).meta.interlaced ==> r == {
                    let data = old(self).source.fed();
                    let ex = old(self).spec_flags().0;
                    let st = old(self).spec_flags().1;
                    let h = old(self).meta.height as int;
                    let stride = old(self).stride as int;
                    if old(self).dec is Some && old(self).source.pending().len() == 0 {
                        spec_run_rows(data, ex, st, stride, old(self).rows_yielded as int, h)
                    } else {
                        let ro = spec_reopen_result(
                            data,
                            old(self).meta,
                            old(self).layout,
                            ex,
                            st,
                        );
                        if ro == DecodingResult::Success {
                            spec_run_rows(data, ex, st, stride, 0, h)
                        } else {
                            ro
                        }
                    }
                })
                // and so is an interlaced image's, from its pass cursor
                &&& (old(self).meta.interlaced ==> r == {
                    let data = old(self).source.fed();
                    let ex = old(self).spec_flags().0;
                    let st = old(self).spec_flags().1;
                    let w = old(self).meta.width;
                    let h = old(self).meta.height;
                    let bpp = old(self).out_bpp;
                    if old(self).dec is Some && old(self).source.pending().len() == 0 {
                        spec_run_adam(
                            data,
                            ex,
                            st,
                            w,
                            h,
                            bpp,
                            old(self).rows_yielded as int,
                            old(self).cursor,
                        )
                    } else {
                        let ro = spec_reopen_result(
                            data,
                            old(self).meta,
                            old(self).layout,
                            ex,
                            st,
                        );
                        if ro == DecodingResult::Success {
                            spec_run_adam(data, ex, st, w, h, bpp, 0, spec_pos_at(w, h, 0))
                        } else {
                            ro
                        }
                    }
                })
            },
    {
        match self.failure {
            Some(c) => {
                return c;
            },
            None => {},
        }
        match self.phase {
            Phase::Fresh | Phase::MetadataPending => {
                return DecodingResult::ParameterError;
            },
            Phase::PixelsReady => {
                return DecodingResult::Success;
            },
            _ => {},
        }
        match self.mode {
            DriveMode::Manual => {
                return DecodingResult::ParameterError;
            },
            _ => {},
        }
        self.drain_source();
        self.phase = Phase::PixelsPending;
        let was_whole = match self.mode {
            DriveMode::Whole => true,
            _ => false,
        };
        self.mode = DriveMode::Whole;
        if !was_whole {
            self.pixels = zero_vec(self.total_bytes);
            proof {
                assert(self.pixels@ =~= Seq::new(
                    (self.stride as int * self.meta.height) as nat,
                    |i: int| 0u8,
                ));
            }
        }
        if self.dec.is_none() {
            let r = self.reopen_whole();
            if r.terminal() {
                return r;
            }
            match r {
                DecodingResult::Success => {},
                _ => {
                    return r;
                },
            }
        }
        proof {
            assert(self.content_ok(self.buffered@));
        }
        let d = self.dec.take().unwrap();
        if self.meta.interlaced {
            self.decode_interlaced(d)
        } else {
            self.decode_sequential(d)
        }
    }

    /// Reopens a decoder after new bytes arrived while rows had already been
    /// handed out row-at-a-time.  The decoder re-parses the longer buffer
    /// and re-yields the rows the caller already has; they are discarded.
    fn reopen_replay(&mut self) -> (r: DecodingResult)
        requires
            old(self).inv(),
            old(self).failure is None,
            old(self).mode == DriveMode::Manual,
            old(self).phase == Phase::PixelsPending,
            old(self).dec is None,
        ensures
            final(self).inv(),
            final(self).source == old(self).source,
            final(self).buffered == old(self).buffered,
            final(self).phase == Phase::PixelsPending,
            final(self).mode == DriveMode::Manual,
            final(self).meta == old(self).meta,
            final(self).color == old(self).color,
            final(self).layout == old(self).layout,
            final(self).out_color == old(self).out_color,
            final(self).out_bpp == old(self).out_bpp,
            final(self).stride == old(self).stride,
            final(self).total_bytes == old(self).total_bytes,
            final(self).tracker == old(self).tracker,
            final(self).rows_yielded == old(self).rows_yielded,
            final(self).cursor == old(self).cursor,
            final(self).last_pass == old(self).last_pass,
            r == DecodingResult::Success ==> final(self).failure is None && final(self).dec is Some,
            r == DecodingResult::IncompleteInput ==> {
                &&& final(self).failure is None
                &&& final(self).dec is None
            },
            r != DecodingResult::Success && r != DecodingResult::IncompleteInput ==> {
                &&& r.is_terminal()
                &&& final(self).failure == Some(r)
            },
    {
        match png_peek_ihdr(&self.buffered) {
            IhdrProbe::Fail(f) => {
                let r = f.to_result();
                if r.terminal() {
                    return self.fail_with(r);
                }
                return r;
            },
            IhdrProbe::Ihdr(info) => {
                if info != self.meta {
                    return self.fail_with(DecodingResult::FormatError);
                }
                let fl = compute_transformations(self.color, self.meta.bit_depth);
                match png_open(&self.buffered, fl.expand, fl.strip_16) {
                    PngOpen::Fail(f) => {
                        let r = f.to_result();
                        if r.terminal() {
                            return self.fail_with(r);
                        }
                        return r;
                    },
                    PngOpen::Open(dec, lay) => {
                        if lay != self.layout {
                            return self.fail_with(DecodingResult::FormatError);
                        }
                        let mut d = dec;
                        let target = self.rows_yielded;
                        let mut k: u64 = 0;
                        while k < target
                            invariant
                                self.inv(),
                                *self == *old(self),
                                self.failure is None,
                                self.phase == Phase::PixelsPending,
                                self.mode == DriveMode::Manual,
                                self.dec is None,
                                target == self.rows_yielded,
                                k <= target,
                                png_dec_ok(d),
                                png_dec_input(d) == self.buffered@,
                                png_dec_flags(d) == self.spec_flags(),
                                png_dec_pos(d) == k as int,
                                png_ihdr_of(self.buffered@) == IhdrProbe::Ihdr(self.meta),
                                png_open_of(
                                    self.buffered@,
                                    self.spec_flags().0,
                                    self.spec_flags().1,
                                ) == OpenAbs::Open(self.layout),
                            decreases target - k,
                        {
                            match png_next_row(&mut d) {
                                RowStep::Yield(_) => {
                                    k = k + 1;
                                },
                                RowStep::End => {
                                    return self.fail_with(DecodingResult::FormatError);
                                },
                                RowStep::Fail(f) => {
                                    let r = f.to_result();
                                    if r.terminal() {
                                        return self.fail_with(r);
                                    }
                                    return r;
                                },
                            }
                        }
                        self.dec = Some(d);
                        DecodingResult::Success
                    },
                }
            },
        }
    }

    /// Decodes and returns the next row of the frame, row-at-a-time.
    ///
    /// For an interlaced image each successful call yields one sparse pass
    /// row, and the session records its pass geometry for
    /// `expand_last_interlaced_row`.  `EndOfFrame` reports, without error,
    /// that every row has been handed out.  `IncompleteInput` asks for more
    /// bytes; the rows already returned are never re-yielded.  This driving
    /// style cannot be mixed with `read_image_data` on one session.
    #[verifier::rlimit(60)]
    pub fn next_interlaced_row(&mut self) -> (out: RowRead)
        requires
            old(self).inv(),
        ensures
            final(self).inv(),
            phase_index(final(self).phase) >= phase_index(old(self).phase),
            final(self).source.fed() == old(self).source.fed(),
            old(self).failure matches Some(c) ==> out.status == c && *final(self) == *old(self),
            old(self).failure is None && phase_index(old(self).phase) < 2 ==> out.status
                == DecodingResult::ParameterError && *final(self) == *old(self),
            old(self).failure is None && old(self).mode == DriveMode::Whole ==> out.status
                == DecodingResult::ParameterError && *final(self) == *old(self),
            old(self).failure is None && phase_index(old(self).phase) >= 2 && old(self).mode
                != DriveMode::Whole ==> {
                &&& final(self).meta == old(self).meta
                &&& final(self).layout == old(self).layout
                &&& final(self).mode == DriveMode::Manual
                &&& (out.status == DecodingResult::Success ==> {
                    &&& png_step_of(
                        old(self).source.fed(),
                        old(self).spec_flags().0,
                        old(self).spec_flags().1,
                        old(self).rows_yielded as int,
                    ) == RowStepAbs::Yield(out.data@)
                    &&& final(self).rows_yielded == old(self).rows_yielded + 1
                    &&& (old(self).meta.interlaced ==> final(self).last_pass == Some(
                        spec_pos_at(
                            old(self).meta.width,
                            old(self).meta.height,
                            old(self).rows_yielded as int,
                        ),
                    ))
                    &&& (!old(self).meta.interlaced ==> final(self).last_pass is None)
                })
                &&& (out.status == DecodingResult::EndOfFrame ==> {
                    &&& final(self).rows_yielded == old(self).rows_yielded
                    &&& (old(self).meta.interlaced ==> spec_pos_at(
                        old(self).meta.width,
                        old(self).meta.height,
                        old(self).rows_yielded as int,
                    ).pass == 8)
                    &&& (!old(self).meta.interlaced ==> old(self).rows_yielded == old(
                        self,
                    ).meta.height)
                })
                &&& (out.status == DecodingResult::IncompleteInput ==> final(self).failure is None)
                &&& (out.status.is_terminal() ==> final(self).failure == Some(out.status))
                // with a warm decoder and rows remaining, the result code is
                // pinned by the next decode step of the bytes fed
                &&& {
                    let at_end = if old(self).meta.interlaced {
                        spec_pos_at(
                            old(self).meta.width,
                            old(self).meta.height,
                            old(self).rows_yielded as int,
                        ).pass == 8
                    } else {
                        old(self).rows_yielded == old(self).meta.height
                    };
                    (old(self).dec is Some && old(self).source.pending().len() == 0 && !at_end)
                        ==> out.status == (match png_step_of(
                        old(self).source.fed(),
                        old(self).spec_flags().0,
                        old(self).spec_flags().1,
                        old(self).rows_yielded as int,
                    ) {
                        RowStepAbs::Yield(_) => DecodingResult::Success,
                        RowStepAbs::End => DecodingResult::FormatError,
                        RowStepAbs::Fail(f) => f.spec_to_result(),
                    })
                }
            },
    {
        match self.failure {
            Some(c) => {
                return RowRead { status: c, data: Vec::new() };
            },
            None => {},
        }
        match self.phase {
            Phase::Fresh | Phase::MetadataPending => {
                return RowRead { status: DecodingResult::ParameterError, data: Vec::new() };
            },
            _ => {},
        }
        match self.mode {
            DriveMode::Whole => {
                return RowRead { status: DecodingResult::ParameterError, data: Vec::new() };
            },
            _ => {},
        }
        self.drain_source();
        self.phase = Phase::PixelsPending;
        self.mode = DriveMode::Manual;
        let at_end = if self.meta.interlaced {
            self.cursor.pass == 8
        } else {
            self.rows_yielded == self.meta.height as u64
        };
        if at_end {
            return RowRead { status: DecodingResult::EndOfFrame, data: Vec::new() };
        }
        if self.dec.is_none() {
            let r = self.reopen_replay();
            match r {
                DecodingResult::Success => {},
                _ => {
                    return RowRead { status: r, data: Vec::new() };
                },
            }
        }
        let mut d = self.dec.take().unwrap();
        match png_next_row(&mut d) {
            RowStep::Yield(v) => {
                if self.meta.interlaced {
                    proof {
                        crate::adam7::lemma_pos_at_valid(
                            self.meta.width,
                            self.meta.height,
                            self.rows_yielded as int,
                        );
                        crate::adam7::lemma_pos_at_valid(
                            self.meta.width,
                            self.meta.height,
                            self.rows_yielded as int + 1,
                        );
                        crate::adam7::lemma_pos_at_valid(self.meta.width, self.meta.height, 0);
                        crate::adam7::lemma_measure_bounds(
                            self.meta.width,
                            self.meta.height,
                            spec_pos_at(self.meta.width, self.meta.height, 0),
                        );
                        crate::adam7::lemma_measure_bounds(
                            self.meta.width,
                            self.meta.height,
                            self.cursor,
                        );
                        crate::adam7::lemma_advance_measure(
                            self.meta.width,
                            self.meta.height,
                            self.cursor,
                        );
                    }
                    self.last_pass = Some(self.cursor);
                    let next = advance_pos(self.meta.width, self.meta.height, self.cursor);
                    self.cursor = next;
                } else {
                    self.last_pass = None;
                }
                self.rows_yielded = self.rows_yielded + 1;
                self.dec = Some(d);
                RowRead { status: DecodingResult::Success, data: v }
            },
            RowStep::End => {
                // passes remain by the header's own geometry, yet the
                // decoder reports the frame complete: the stream is
                // inconsistent
                RowRead { status: self.fail_with(DecodingResult::FormatError), data: Vec::new() }
            },
            RowStep::Fail(f) => {
                let r = f.to_result();
                if r.terminal() {
                    return RowRead { status: self.fail_with(r), data: Vec::new() };
                }
                RowRead { status: r, data: Vec::new() }
            },
        }
    }

    /// Scatters a row obtained from `next_interlaced_row` into a full image
    /// buffer the caller owns, at the positions its recorded pass assigns.
    /// May only be called after a successful interlaced row read: the
    /// session must hold the row's pass geometry.
    pub fn expand_last_interlaced_row(
        &self,
        img: &mut Vec<u8>,
        img_row_stride: usize,
        row: &Vec<u8>,
        bits_per_pixel: u8,
    )
        requires
            self.inv(),
            self.last_pass is Some,
            spec_valid_bpp(bits_per_pixel),
            bits_per_pixel >= 8 ==> row@.len() as int % ((bits_per_pixel / 8) as int) == 0,
            img_row_stride >= spec_row_bytes(self.meta.width, bits_per_pixel),
            old(img)@.len() >= self.meta.height * img_row_stride,
        ensures
            final(img)@ == adam7_expanded(
                old(img)@,
                img_row_stride as int,
                row@,
                self.last_pass.unwrap().pass,
                self.last_pass.unwrap().line,
                self.meta.width,
                bits_per_pixel,
            ),
            final(img)@.len() == old(img)@.len(),
    {
        let g = self.last_pass.unwrap();
        proof {
            broadcast use vstd::arithmetic::mul::lemma_mul_inequality;

            lemma_pass_line_in_image(self.meta.height, g.pass, g.line);
            assert((spec_y_sampling(g.pass) * g.line + spec_y_offset(g.pass) + 1)
                * img_row_stride as int <= self.meta.height as int * img_row_stride as int);
        }
        adam7_expand(img, img_row_stride, row, g.pass, g.line, self.meta.width, bits_per_pixel);
    }

    /// How many leading rows of the final image are fully decoded right now.
    /// Sequential decodes complete rows one by one; an interlaced image has
    /// no complete rows until every pass is in.  Rows handed out
    /// row-at-a-time are the caller's business, not the session buffer's.
    pub open spec fn spec_complete_rows(self) -> u32 {
        if self.mode != DriveMode::Whole {
            0u32
        } else if self.meta.interlaced {
            if self.phase == Phase::PixelsReady {
                self.meta.height
            } else {
                0u32
            }
        } else {
            self.rows_yielded as u32
        }
    }

    /// Runtime mirror of `spec_complete_rows`.
    pub fn complete_rows(&self) -> (n: u32)
        requires
            self.inv(),
        ensures
            n == self.spec_complete_rows(),
            n <= self.tracker.height,
    {
        match self.mode {
            DriveMode::Whole => {
                if self.meta.interlaced {
                    match self.phase {
                        Phase::PixelsReady => self.meta.height,
                        _ => 0,
                    }
                } else {
                    self.rows_yielded as u32
                }
            },
            _ => 0,
        }
    }

    /// Hands out the rows that became complete since the last call, at most
    /// once each.  An empty block is a valid steady state, not an error.
    /// The block always covers exactly the complete-but-unreported rows, in
    /// logical order, and its bytes are a copy of the corresponding span of
    /// the pixel buffer.
    pub fn pull_new_rows(&mut self) -> (out: NewRows)
        requires
            old(self).inv(),
        ensures
            final(self).inv(),
            final(self).phase == old(self).phase,
            final(self).failure == old(self).failure,
            final(self).source == old(self).source,
            final(self).buffered == old(self).buffered,
            final(self).meta == old(self).meta,
            final(self).layout == old(self).layout,
            final(self).stride == old(self).stride,
            final(self).mode == old(self).mode,
            final(self).rows_yielded == old(self).rows_yielded,
            final(self).pixels == old(self).pixels,
            final(self).done_input == old(self).done_input,
            old(self).failure matches Some(c) ==> out.status == c && *final(self) == *old(self),
            old(self).failure is None && phase_index(old(self).phase) < 2 ==> out.status
                == DecodingResult::ParameterError && *final(self) == *old(self),
            old(self).failure is None && phase_index(old(self).phase) >= 2 ==> {
                &&& out.status == DecodingResult::Success
                &&& {
                    let decoded = old(self).spec_complete_rows();
                    let consumed = old(self).tracker.consumed;
                    if decoded <= consumed {
                        &&& out.row_count == 0
                        &&& out.row_start == 0
                        &&& out.bytes@ == Seq::<u8>::empty()
                        &&& final(self).tracker == old(self).tracker
                    } else {
                        &&& out.row_start == consumed
                        &&& out.row_count == decoded - consumed
                        &&& out.bytes@ == old(self).pixels@.subrange(
                            consumed * old(self).stride,
                            decoded * old(self).stride,
                        )
                        &&& final(self).tracker.consumed == decoded
                        &&& forall|row: int|
                            row_reported(
                                Orientation::TopDown,
                                old(self).meta.height,
                                consumed,
                                decoded,
                                row,
                            ) <==> out.row_start <= row < out.row_start + out.row_count
                    }
                }
            },
    {
        match self.failure {
            Some(c) => {
                return NewRows { status: c, row_start: 0, row_count: 0, bytes: Vec::new() };
            },
            None => {},
        }
        match self.phase {
            Phase::Fresh | Phase::MetadataPending => {
                return NewRows {
                    status: DecodingResult::ParameterError,
                    row_start: 0,
                    row_count: 0,
                    bytes: Vec::new(),
                };
            },
            _ => {},
        }
        let decoded = self.complete_rows();
        let rr = self.tracker.pull(decoded);
        if rr.row_count == 0 {
            proof {
                assert(*final(self) == *old(self));
            }
            return NewRows {
                status: DecodingResult::Success,
                row_start: 0,
                row_count: 0,
                bytes: Vec::new(),
            };
        }
        proof {
            broadcast use vstd::arithmetic::mul::lemma_mul_inequality;
            broadcast use vstd::arithmetic::mul::lemma_mul_is_distributive_add_other_way;

            assert(decoded > 0);
            assert(self.mode == DriveMode::Whole);
            assert((rr.row_start + rr.row_count) * self.stride as int <= self.meta.height as int
                * self.stride as int);
            assert(self.meta.height as int * self.stride as int == self.stride as int
                * self.meta.height as int) by (nonlinear_arith);
            assert(rr.byte_offset + rr.byte_len == (rr.row_start + rr.row_count) * self.stride
                as int);
        }
        let bytes = copy_range(&self.pixels, rr.byte_offset, rr.byte_offset + rr.byte_len);
        NewRows {
            status: DecodingResult::Success,
            row_start: rr.row_start,
            row_count: rr.row_count,
            bytes,
        }
    }

    /// Image width in pixels; meaningful once metadata is ready.
    pub fn width(&self) -> (w: u32)
        ensures
            w == self.meta.width,
    {
        self.meta.width
    }

    /// Image height in rows; meaningful once metadata is ready.
    pub fn height(&self) -> (h: u32)
        ensures
            h == self.meta.height,
    {
        self.meta.height
    }

    /// Whether the image is interlaced; meaningful once metadata is ready.
    pub fn interlaced(&self) -> (b: bool)
        ensures
            b == self.meta.interlaced,
    {
        self.meta.interlaced
    }

    /// Color type of the decoded output rows.
    pub fn output_color_type(&self) -> (c: ColorType)
        ensures
            c == self.out_color,
    {
        self.out_color
    }

    /// Bit depth per sample of the decoded output rows.
    pub fn output_bits_per_component(&self) -> (b: u8)
        ensures
            b == self.layout.bits_per_component,
    {
        self.layout.bits_per_component
    }

    /// Bytes per decoded output row.
    pub fn output_row_stride(&self) -> (s: usize)
        ensures
            s == self.stride,
    {
        self.stride
    }

    /// Bytes in a whole decoded frame.
    pub fn output_buffer_size(&self) -> (s: usize)
        ensures
            s == self.total_bytes,
    {
        self.total_bytes
    }
}

/// Once a decode step sequence is finished at a row count, it is finished at
/// the same count only: the end of the pass sequence is a single, fixed
/// position.
proof fn lemma_done_stays(w: u32, h: u32, k: int, j: int)
    requires
        0 <= k <= j,
        spec_pos_at(w, h, k).pass == 8,
    ensures
        spec_pos_at(w, h, j).pass == 8,
    decreases j - k,
{
    if j > k {
        lemma_done_stays(w, h, k, j - 1);
    }
}

/// The row count at which the pass sequence first ends is unique.
proof fn lemma_first_done_unique(w: u32, h: u32, k1: int, k2: int)
    requires
        0 <= k1,
        0 <= k2,
        spec_pos_at(w, h, k1).pass == 8,
        spec_pos_at(w, h, k2).pass == 8,
        k1 > 0 ==> spec_pos_at(w, h, k1 - 1).pass != 8,
        k2 > 0 ==> spec_pos_at(w, h, k2 - 1).pass != 8,
    ensures
        k1 == k2,
{
    if k1 < k2 {
        lemma_done_stays(w, h, k1, k2 - 1);
    } else if k2 < k1 {
        lemma_done_stays(w, h, k2, k1 - 1);
    }
}

/// A full set of placed rows determines the buffer: two buffers holding the
/// same decoded rows at the same stride are byte-identical.
proof fn lemma_rows_determine_pixels(
    data: Seq<u8>,
    ex: bool,
    st: bool,
    p1: Seq<u8>,
    p2: Seq<u8>,
    stride: int,
    h: int,
)
    requires
        stride >= 1,
        h >= 0,
        p1.len() == stride * h,
        p2.len() == stride * h,
        rows_placed(data, ex, st, p1, stride, h),
        rows_placed(data, ex, st, p2, stride, h),
    ensures
        p1 == p2,
{
    assert forall|i: int| 0 <= i < p1.len() implies p1[i] == p2[i] by {
        let r = i / stride;
        vstd::arithmetic::div_mod::lemma_fundamental_div_mod(i, stride);
        assert(0 <= i % stride < stride) by {
            vstd::arithmetic::div_mod::lemma_mod_bound(i, stride);
        }
        assert(0 <= r < h) by (nonlinear_arith)
            requires
                stride >= 1,
                i == stride * r + i % stride,
                0 <= i % stride < stride,
                0 <= i < stride * h,
        ;
        assert(r * stride == stride * r && h * stride == stride * h && (r + 1) * stride == r
            * stride + stride) by (nonlinear_arith);
        assert((r + 1) * stride <= h * stride) by (nonlinear_arith)
            requires
                0 <= r + 1 <= h,
                stride >= 1,
        ;
        assert(png_step_of(data, ex, st, r) matches RowStepAbs::Yield(b) && b.len() == stride
            && p1.subrange(r * stride, r * stride + stride) == b && p2.subrange(
            r * stride,
            r * stride + stride,
        ) == b);
        assert(p1.subrange(r * stride, r * stride + stride)[i - r * stride] == p1[i]);
        assert(p2.subrange(r * stride, r * stride + stride)[i - r * stride] == p2[i]);
    }
    assert(p1 =~= p2);
}

/// Decoding loses nothing and invents nothing: the finished pixel buffer is
/// a function of the bytes the decode completed over.  Two whole-image
/// sessions that completed over the same input hold byte-identical metadata
/// and pixel buffers — no matter how the bytes arrived, all at once or one
/// at a time across many incomplete attempts.
pub proof fn lemma_decode_deterministic(s1: PngSession, s2: PngSession)
    requires
        s1.inv(),
        s2.inv(),
        s1.phase == Phase::PixelsReady,
        s2.phase == Phase::PixelsReady,
        s1.done_input@ == s2.done_input@,
    ensures
        s1.meta == s2.meta,
        s1.layout == s2.layout,
        s1.pixels@ == s2.pixels@,
{
    assert(s1.meta == s2.meta);
    assert(s1.color == s2.color);
    assert(s1.spec_flags() == s2.spec_flags());
    assert(s1.layout == s2.layout);
    assert(s1.out_color == s2.out_color);
    assert(s1.out_bpp == s2.out_bpp);
    assert(s1.stride == s2.stride);
    if s1.meta.interlaced {
        lemma_first_done_unique(
            s1.meta.width,
            s1.meta.height,
            s1.rows_yielded as int,
            s2.rows_yielded as int,
        );
    } else {
        assert(s1.stride >= 1) by (nonlinear_arith)
            requires
                s1.stride == (s1.meta.width * s1.out_bpp + 7) / 8,
                s1.meta.width >= 1,
                s1.out_bpp >= 1,
        ;
        assert(s1.pixels@.len() == s1.stride * s1.meta.height) by (nonlinear_arith)
            requires
                s1.pixels@.len() == s1.total_bytes,
                s1.total_bytes == s1.stride * s1.meta.height,
        ;
        lemma_rows_determine_pixels(
            s1.done_input@,
            s1.spec_flags().0,
            s1.spec_flags().1,
            s1.pixels@,
            s2.pixels@,
            s1.stride as int,
            s1.meta.height as int,
        );
    }
}

} // verus!
