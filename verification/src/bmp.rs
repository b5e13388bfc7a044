//! The resumable BMP decode session.
//!
//! Bitmap decoding is delegated to the `image` crate, whose decoder wants
//! the whole stream; this module owns the resumable state machine around
//! it.  The session buffers every byte its source has produced, re-reads
//! the buffered prefix on each attempt, and treats running out of bytes as
//! a retryable condition.  Decoding a fixed byte vector is deterministic,
//! so every trusted call is specified as a pure function of the bytes.
//!
//! The decoder hands rows out in top-down order whatever the file's own row
//! order; the file's order is still parsed from the header and reported, as
//! it decides where newly completed rows land during a decode.

use vstd::prelude::*;

use crate::phase::{phase_index, Phase};
use crate::result::DecodingResult;
use crate::rows::{row_reported, Orientation, RowTracker};
use crate::source::{copy_range, spec_splice, splice_at, ByteSource};

verus! {

/// Channel order of decoded BMP pixels.
#[derive(Clone, Copy, Debug, PartialEq, Eq, Structural)]
pub enum BmpColor {
    RGB,
    RGBA,
    BGR,
    BGRA,
}

/// Alpha interpretation of decoded BMP pixels.
#[derive(Clone, Copy, Debug, PartialEq, Eq, Structural)]
pub enum BmpAlpha {
    Opaque,
    Unpremul,
}

/// Whether `data` starts with the two-byte bitmap signature.  Other header
/// families that share the container are not decoded here.
pub open spec fn spec_is_bmp_data(data: Seq<u8>) -> bool {
    data.len() >= 2 && data[0] == 66 && data[1] == 77
}

/// Format sniff: callers check this before constructing a session; bytes
/// that fail it are not bitmap data this crate decodes.
pub fn is_bmp_data(data: &[u8]) -> (b: bool)
    ensures
        b == spec_is_bmp_data(data@),
{
    data.len() >= 2 && data[0] == 66 && data[1] == 77
}

/// How a failed BMP decode step classifies.
#[derive(Clone, Copy, Debug, PartialEq, Eq, Structural)]
pub enum BmpFail {
    /// The bytes seen so far ran out mid-structure; more input may succeed.
    Incomplete,
    /// The bytes are structurally invalid.
    BadFormat,
    /// The header is recognized but uses a feature this crate does not map.
    Unsupported,
    /// Any other failure.
    Unusable,
}

impl BmpFail {
    pub open spec fn spec_to_result(self) -> DecodingResult {
        match self {
            BmpFail::Incomplete => DecodingResult::IncompleteInput,
            BmpFail::BadFormat => DecodingResult::FormatError,
            BmpFail::Unsupported => DecodingResult::UnsupportedFeature,
            BmpFail::Unusable => DecodingResult::OtherError,
        }
    }

    pub fn to_result(self) -> (r: DecodingResult)
        ensures
            r == self.spec_to_result(),
            r != DecodingResult::Success,
            r.is_terminal() <==> self != BmpFail::Incomplete,
    {
        match self {
            BmpFail::Incomplete => DecodingResult::IncompleteInput,
            BmpFail::BadFormat => DecodingResult::FormatError,
            BmpFail::Unsupported => DecodingResult::UnsupportedFeature,
            BmpFail::Unusable => DecodingResult::OtherError,
        }
    }
}

/// The facts the session keeps from the bitmap header.
#[derive(Clone, Copy, Debug, PartialEq, Eq, Structural)]
pub struct BmpMeta {
    pub width: u32,
    pub height: u32,
    pub color: BmpColor,
    pub alpha: BmpAlpha,
    pub bytes_per_pixel: u32,
}

/// Outcome of opening a decoder over a byte prefix.
#[derive(Clone, Copy, Debug, PartialEq, Eq, Structural)]
pub enum BmpProbeAbs {
    Header(BmpMeta),
    Fail(BmpFail),
}

/// Abstract outcome of decoding the pixel data.
pub enum BmpPixelsAbs {
    Pixels(Seq<u8>),
    Fail(BmpFail),
}

/// What opening a bitmap decoder over `data` yields.  Parsing a fixed byte
/// vector is deterministic, so this is a function of the bytes alone.
pub uninterp spec fn bmp_open_of(data: Seq<u8>) -> BmpProbeAbs;

/// The bytes a decoder value was opened over.
pub uninterp spec fn bmp_dec_input(d: BmpHandle) -> Seq<u8>;

/// The total output byte count the decoder reports for `data`.
pub uninterp spec fn bmp_total_of(data: Seq<u8>) -> u64;

/// What decoding the pixel data of `data` yields.
pub uninterp spec fn bmp_pixels_of(data: Seq<u8>) -> BmpPixelsAbs;

#[verifier::external_type_specification]
#[verifier::external_body]
pub struct ExImageError(image::ImageError);

/// The `image` crate's bitmap decoder over the session's buffered bytes.
/// Verus cannot name the crate's generic decoder type directly, so the
/// value is held whole behind this opaque struct; the named spec functions
/// above describe its state.
#[verifier::external_body]
pub struct BmpHandle {
    inner: image::codecs::bmp::BmpDecoder<std::io::Cursor<Vec<u8>>>,
}

/// Result of `bmp_open`: a live decoder plus the header facts, or the
/// failure class.
pub enum BmpOpen {
    Open(BmpHandle, BmpMeta),
    Fail(BmpFail),
}

/// Result of `bmp_read_pixels`.
pub enum BmpPixels {
    Pixels(Vec<u8>),
    Fail(BmpFail),
}

/// Relies on the shape of image::ImageError: classifies a decode failure,
/// treating an unexpected-end-of-file read error as retryable input
/// exhaustion, as a cursor over a byte buffer can produce no other read
/// error.
#[verifier::external_body]
fn bmp_fail_of(e: &image::ImageError) -> BmpFail {
    match e {
        image::ImageError::Decoding(_) => BmpFail::BadFormat,
        image::ImageError::Encoding(_) => BmpFail::BadFormat,
        image::ImageError::Parameter(_) => BmpFail::Unusable,
        image::ImageError::Limits(_) => BmpFail::Unsupported,
        image::ImageError::Unsupported(_) => BmpFail::Unsupported,
        image::ImageError::IoError(io) => {
            if io.kind() == std::io::ErrorKind::UnexpectedEof {
                BmpFail::Incomplete
            } else {
                BmpFail::Unusable
            }
        },
    }
}

/// Relies on image::codecs::bmp::BmpDecoder::new and the ImageDecoder
/// methods dimensions and color_type: parses the bitmap headers from the
/// front of `data` and reports the decoded-output layout.  The crate
/// decodes into 8-bit RGB or RGBA; anything else is unsupported here.
#[verifier::external_body]
fn bmp_open(data: &Vec<u8>) -> (r: BmpOpen)
    ensures
        match r {
            BmpOpen::Open(d, m) => {
                &&& bmp_open_of(data@) == BmpProbeAbs::Header(m)
                &&& bmp_dec_input(d) == data@
                &&& (m.bytes_per_pixel == 3 || m.bytes_per_pixel == 4)
            },
            BmpOpen::Fail(f) => bmp_open_of(data@) == BmpProbeAbs::Fail(f),
        },
{
    match image::codecs::bmp::BmpDecoder::new(std::io::Cursor::new(data.clone())) {
        Ok(dec) => {
            let (width, height) = image::ImageDecoder::dimensions(&dec);
            let (color, alpha, bytes_per_pixel) = match image::ImageDecoder::color_type(&dec) {
                image::ColorType::Rgb8 => (BmpColor::RGB, BmpAlpha::Opaque, 3),
                image::ColorType::Rgba8 => (BmpColor::RGBA, BmpAlpha::Unpremul, 4),
                _ => return BmpOpen::Fail(BmpFail::Unsupported),
            };
            let meta = BmpMeta { width, height, color, alpha, bytes_per_pixel };
            BmpOpen::Open(BmpHandle { inner: dec }, meta)
        },
        Err(e) => BmpOpen::Fail(bmp_fail_of(&e)),
    }
}

/// Relies on the ImageDecoder method total_bytes: the size in bytes of the
/// whole decoded image.
#[verifier::external_body]
fn bmp_total(d: &BmpHandle) -> (r: u64)
    ensures
        r == bmp_total_of(bmp_dec_input(*d)),
{
    image::ImageDecoder::total_bytes(&d.inner)
}

/// Relies on the ImageDecoder method read_image: decodes the whole image
/// into a buffer of exactly the reported size, rows in top-down order.
/// The size precondition mirrors the call's own checked expectation.
#[verifier::external_body]
fn bmp_read_pixels(d: BmpHandle, nbytes: usize) -> (r: BmpPixels)
    requires
        nbytes as int == bmp_total_of(bmp_dec_input(d)),
    ensures
        match r {
            BmpPixels::Pixels(v) => {
                &&& bmp_pixels_of(bmp_dec_input(d)) == BmpPixelsAbs::Pixels(v@)
                &&& v@.len() == nbytes
            },
            BmpPixels::Fail(f) => bmp_pixels_of(bmp_dec_input(d)) == BmpPixelsAbs::Fail(f),
        },
{
    let mut buf = vec![0u8; nbytes];
    match image::ImageDecoder::read_image(d.inner, buf.as_mut_slice()) {
        Ok(()) => BmpPixels::Pixels(buf),
        Err(e) => BmpPixels::Fail(bmp_fail_of(&e)),
    }
}

/// A little-endian 32-bit read at `off`.
pub open spec fn spec_le_u32(data: Seq<u8>, off: int) -> int {
    data[off] + 256 * data[off + 1] + 65536 * data[off + 2] + 16777216 * data[off + 3]
}

/// The row storage order the file declares.  Info-family headers mark a
/// top-down bitmap with a negative height (most significant bit of the
/// 32-bit height set); the legacy core header has no such flag, and
/// bottom-up is the default everywhere else.
pub open spec fn spec_orientation_of(data: Seq<u8>) -> Orientation {
    if data.len() >= 26 && spec_le_u32(data, 14) >= 40 && data[25] >= 128 {
        Orientation::TopDown
    } else {
        Orientation::BottomUp
    }
}

/// Reads the file's declared row order from the raw header bytes.
pub fn parse_orientation(data: &Vec<u8>) -> (o: Orientation)
    ensures
        o == spec_orientation_of(data@),
{
    if data.len() >= 26 {
        let hdr_size: u64 = (data[14] as u64) + 256 * (data[15] as u64) + 65536 * (
        data[16] as u64) + 16777216 * (data[17] as u64);
        if hdr_size >= 40 && data[25] >= 128 {
            return Orientation::TopDown;
        }
        Orientation::BottomUp
    } else {
        Orientation::BottomUp
    }
}

/// The exact result of a metadata read over the bytes `data`.
pub open spec fn spec_bmp_metadata_result(data: Seq<u8>) -> DecodingResult {
    match bmp_open_of(data) {
        BmpProbeAbs::Fail(f) => f.spec_to_result(),
        BmpProbeAbs::Header(m) => {
            if m.width * m.bytes_per_pixel > usize::MAX as int {
                DecodingResult::LimitsExceeded
            } else if m.width * m.bytes_per_pixel * m.height > usize::MAX as int {
                DecodingResult::LimitsExceeded
            } else {
                DecodingResult::Success
            }
        },
    }
}

/// The exact result of the pixel half of a decode attempt over `data` for
/// a session expecting `total` output bytes: the decoder's own size
/// arithmetic must agree with the header-derived size, and then the pixel
/// decode decides.
pub open spec fn spec_bmp_pixels_result(data: Seq<u8>, total: usize) -> DecodingResult {
    if bmp_total_of(data) != total as u64 {
        DecodingResult::FormatError
    } else {
        match bmp_pixels_of(data) {
            BmpPixelsAbs::Pixels(_) => DecodingResult::Success,
            BmpPixelsAbs::Fail(f) => f.spec_to_result(),
        }
    }
}

/// The exact result of reopening a decoder over grown bytes for a session
/// that has already published its metadata: the longer prefix must parse
/// to the same header and declare the same row order.
pub open spec fn spec_bmp_reopen_result(
    data: Seq<u8>,
    meta: BmpMeta,
    orientation: Orientation,
) -> DecodingResult {
    match bmp_open_of(data) {
        BmpProbeAbs::Fail(f) => f.spec_to_result(),
        BmpProbeAbs::Header(m) => {
            if m != meta {
                DecodingResult::FormatError
            } else if spec_orientation_of(data) != orientation {
                DecodingResult::FormatError
            } else {
                DecodingResult::Success
            }
        },
    }
}

/// A resumable BMP decode session.
///
/// The session owns its byte source and buffers everything the source has
/// produced.  The underlying decoder wants the whole stream, so each
/// attempt re-reads the buffered prefix from the start; running out of
/// bytes reports `IncompleteInput` and a later attempt, with more bytes
/// fed, starts over without losing anything the caller has seen.
pub struct BmpSession {
    /// The byte source; `feed` pushes newly available bytes into it.
    pub source: ByteSource,
    /// Every byte pulled from the source so far.
    pub buffered: Vec<u8>,
    /// Lifecycle stage; only ever advances.
    pub phase: Phase,
    /// The terminal code once the session has failed for good.
    pub failure: Option<DecodingResult>,
    /// Header facts; fixed once `phase` reaches `MetadataReady`.
    pub meta: BmpMeta,
    /// The row order the file declares.  The decoder reorders its output
    /// to top-down regardless; this records what the file said.
    pub orientation: Orientation,
    /// Bytes per decoded row.
    pub stride: usize,
    /// Bytes in the whole decoded image.
    pub total_bytes: usize,
    /// The live decoder, when one is open over exactly `buffered`.
    pub dec: Option<BmpHandle>,
    /// The decoded image, top-down, once `phase` is `PixelsReady`.
    pub pixels: Vec<u8>,
    /// Bookkeeping for rows already handed to the caller.
    pub tracker: RowTracker,
    /// The buffered bytes at the moment decoding completed.
    pub done_input: Ghost<Seq<u8>>,
}

impl BmpSession {
    /// Consistency of the stored metadata, once it is set.
    pub open spec fn meta_ok(self) -> bool {
        &&& (self.meta.bytes_per_pixel == 3 || self.meta.bytes_per_pixel == 4)
        &&& self.stride == self.meta.width * self.meta.bytes_per_pixel
        &&& self.total_bytes == self.stride * self.meta.height
    }

    /// The session invariant: every public operation preserves it.
    pub open spec fn inv(self) -> bool {
        &&& self.source.wf()
        &&& self.buffered@ + self.source.pending() == self.source.fed()
        &&& (self.failure matches Some(c) ==> c.is_terminal())
        &&& (phase_index(self.phase) >= 2 ==> self.meta_ok())
        &&& (phase_index(self.phase) < 2 ==> self.dec is None && self.pixels@.len() == 0)
        &&& (self.dec matches Some(d) ==> {
            &&& phase_index(self.phase) >= 2
            &&& bmp_dec_input(d) == self.buffered@
            &&& bmp_open_of(self.buffered@) == BmpProbeAbs::Header(self.meta)
        })
        &&& (self.pixels@.len() == 0 || self.pixels@.len() == self.total_bytes)
        &&& self.tracker.wf()
        &&& (phase_index(self.phase) >= 2 ==> {
            &&& self.tracker.orientation == self.orientation
            &&& self.tracker.height == self.meta.height
            &&& self.tracker.row_stride == self.stride
        })
        &&& (self.phase == Phase::PixelsReady ==> {
            &&& self.failure is None
            &&& self.done_input@ == self.buffered@
            &&& bmp_open_of(self.done_input@) == BmpProbeAbs::Header(self.meta)
            &&& bmp_pixels_of(self.done_input@) == BmpPixelsAbs::Pixels(self.pixels@)
            &&& self.pixels@.len() == self.total_bytes
        })
        &&& (self.phase != Phase::PixelsReady ==> self.pixels@.len() == 0)
    }

    /// Creates a session over a fresh byte source.  Construction cannot
    /// fail; all parsing happens on the first metadata read.
    pub fn new(source: ByteSource) -> (s: BmpSession)
        requires
            source.wf(),
            source.pos == 0,
        ensures
            s.inv(),
            s.phase == Phase::Fresh,
            s.failure is None,
            s.source.fed() == source.fed(),
    {
        let s = BmpSession {
            source,
            buffered: Vec::new(),
            phase: Phase::Fresh,
            failure: None,
            meta: BmpMeta {
                width: 0,
                height: 0,
                color: BmpColor::RGB,
                alpha: BmpAlpha::Opaque,
                bytes_per_pixel: 3,
            },
            orientation: Orientation::BottomUp,
            stride: 0,
            total_bytes: 0,
            dec: None,
            pixels: Vec::new(),
            tracker: RowTracker::new(Orientation::BottomUp, 0, 0),
            done_input: Ghost(Seq::empty()),
        };
        proof {
            assert(s.buffered@ + s.source.pending() =~= s.source.fed());
        }
        s
    }

    /// Makes newly available bytes visible to the session.
    pub fn feed(&mut self, bytes: &[u8])
        requires
            old(self).inv(),
        ensures
            final(self).inv(),
            final(self).source.fed() == old(self).source.fed() + bytes@,
            final(self).phase == old(self).phase,
            final(self).failure == old(self).failure,
            final(self).meta == old(self).meta,
            final(self).pixels == old(self).pixels,
            final(self).tracker == old(self).tracker,
            final(self).buffered == old(self).buffered,
            final(self).done_input == old(self).done_input,
    {
        self.source.feed(bytes);
        proof {
            let fin = *final(self);
            assert(fin.buffered@ + fin.source.pending() =~= fin.source.fed());
        }
    }

    /// Pulls every pending byte of the source into the session's buffer,
    /// dropping a decoder opened over the shorter prefix.
    fn drain_source(&mut self)
        requires
            old(self).inv(),
            old(self).phase != Phase::PixelsReady,
        ensures
            final(self).inv(),
            final(self).buffered@ == old(self).source.fed(),
            final(self).source.fed() == old(self).source.fed(),
            final(self).phase == old(self).phase,
            final(self).failure == old(self).failure,
            final(self).meta == old(self).meta,
            final(self).orientation == old(self).orientation,
            final(self).stride == old(self).stride,
            final(self).total_bytes == old(self).total_bytes,
            final(self).pixels == old(self).pixels,
            final(self).tracker == old(self).tracker,
            final(self).done_input == old(self).done_input,
            old(self).source.pending().len() == 0 ==> final(self).dec == old(self).dec,
            old(self).source.pending().len() > 0 ==> final(self).dec is None,
    {
        let n = self.source.available();
        if n > 0 {
            self.dec = None;
            let mut newly = self.source.take_pending();
            self.buffered.append(&mut newly);
        }
        proof {
            assert(final(self).buffered@ == old(self).source.fed());
        }
    }

    /// Records a terminal failure and discards any partial pixel data.
    fn fail_with(&mut self, code: DecodingResult) -> (r: DecodingResult)
        requires
            old(self).inv(),
            code.is_terminal(),
            old(self).phase != Phase::PixelsReady,
        ensures
            final(self).inv(),
            r == code,
            final(self).failure == Some(code),
            final(self).phase == old(self).phase,
            final(self).meta == old(self).meta,
            final(self).orientation == old(self).orientation,
            final(self).stride == old(self).stride,
            final(self).total_bytes == old(self).total_bytes,
            final(self).tracker == old(self).tracker,
            final(self).source == old(self).source,
            final(self).buffered == old(self).buffered,
            final(self).done_input == old(self).done_input,
            final(self).pixels@.len() == 0,
            final(self).dec is None,
    {
        self.failure = Some(code);
        self.pixels = Vec::new();
        self.dec = None;
        code
    }

    /// Attempts to read the bitmap metadata: dimensions, channel layout and
    /// the file's declared row order.  `IncompleteInput` while the bytes
    /// fed so far are only a valid prefix; idempotent after success; any
    /// other code is terminal.  The outcome is exactly
    /// `spec_bmp_metadata_result` of all bytes fed so far.
    pub fn read_metadata(&mut self) -> (r: DecodingResult)
        requires
            old(self).inv(),
        ensures
            final(self).inv(),
            phase_index(final(self).phase) >= phase_index(old(self).phase),
            final(self).source.fed() == old(self).source.fed(),
            old(self).failure matches Some(c) ==> r == c && *final(self) == *old(self),
            old(self).failure is None && phase_index(old(self).phase) >= 2 ==> r
                == DecodingResult::Success && *final(self) == *old(self),
            old(self).failure is None && phase_index(old(self).phase) < 2 ==> {
                &&& r == spec_bmp_metadata_result(old(self).source.fed())
                &&& (r == DecodingResult::Success ==> {
                    &&& final(self).phase == Phase::MetadataReady
                    &&& final(self).failure is None
                    &&& bmp_open_of(old(self).source.fed()) == BmpProbeAbs::Header(
                        final(self).meta,
                    )
                    &&& final(self).orientation == spec_orientation_of(old(self).source.fed())
                })
                &&& (r == DecodingResult::IncompleteInput ==> {
                    &&& final(self).phase == Phase::MetadataPending
                    &&& final(self).failure is None
                })
                &&& (r.is_terminal() ==> final(self).failure == Some(r))
            },
    {
        match self.failure {
            Some(c) => {
                return c;
            },
            None => {},
        }
        match self.phase {
            Phase::MetadataReady | Phase::PixelsPending | Phase::PixelsReady => {
                return DecodingResult::Success;
            },
            _ => {},
        }
        self.drain_source();
        self.phase = Phase::MetadataPending;
        match bmp_open(&self.buffered) {
            BmpOpen::Fail(f) => {
                let r = f.to_result();
                if r.terminal() {
                    return self.fail_with(r);
                }
                r
            },
            BmpOpen::Open(d, m) => {
                let stride64: u64 = (m.width as u64) * (m.bytes_per_pixel as u64);
                if stride64 > usize::MAX as u64 {
                    return self.fail_with(DecodingResult::LimitsExceeded);
                }
                assert((stride64 as u128) * (m.height as u128) < u128::MAX) by (nonlinear_arith)
                    requires
                        stride64 <= u64::MAX,
                        m.height <= u32::MAX,
                ;
                let total128: u128 = (stride64 as u128) * (m.height as u128);
                if total128 > usize::MAX as u128 {
                    return self.fail_with(DecodingResult::LimitsExceeded);
                }
                proof {
                    assert(stride64 as int * m.height as int == total128 as int);
                }
                let stride = stride64 as usize;
                let total = total128 as usize;
                let orientation = parse_orientation(&self.buffered);
                self.meta = m;
                self.orientation = orientation;
                self.stride = stride;
                self.total_bytes = total;
                self.dec = Some(d);
                self.tracker = RowTracker::new(orientation, m.height, stride);
                self.phase = Phase::MetadataReady;
                DecodingResult::Success
            },
        }
    }

    /// Attempts to decode the whole image into the session's pixel buffer.
    ///
    /// Requires metadata to be ready; calling earlier reports
    /// `ParameterError` and changes nothing.  Idempotent after success.  On
    /// `IncompleteInput` the caller feeds more bytes and calls again; the
    /// next attempt re-reads the buffered stream from the start, so no fed
    /// byte is ever lost.  On a terminal failure the pixel buffer is
    /// discarded.  On `Success` the buffer holds, byte for byte, rows
    /// top-down, the image the fed bytes decode to.
    pub fn read_image_data(&mut self) -> (r: DecodingResult)
        requires
            old(self).inv(),
        ensures
            final(self).inv(),
            phase_index(final(self).phase) >= phase_index(old(self).phase),
            final(self).source.fed() == old(self).source.fed(),
            old(self).failure matches Some(c) ==> r == c && *final(self) == *old(self),
            old(self).failure is None && phase_index(old(self).phase) < 2 ==> r
                == DecodingResult::ParameterError && *final(self) == *old(self),
            old(self).failure is None && old(self).phase == Phase::PixelsReady ==> r
                == DecodingResult::Success && *final(self) == *old(self),
            old(self).failure is None && phase_index(old(self).phase) >= 2 && old(self).phase
                != Phase::PixelsReady ==> {
                &&& final(self).meta == old(self).meta
                &&& final(self).orientation == old(self).orientation
                &&& final(self).tracker == old(self).tracker
                &&& (r == DecodingResult::Success ==> {
                    &&& final(self).phase == Phase::PixelsReady
                    &&& final(self).done_input@ == old(self).source.fed()
                    &&& bmp_pixels_of(old(self).source.fed()) == BmpPixelsAbs::Pixels(
                        final(self).pixels@,
                    )
                })
                &&& (r == DecodingResult::IncompleteInput ==> {
                    &&& final(self).phase == Phase::PixelsPending
                    &&& final(self).failure is None
                })
                &&& (r.is_terminal() ==> {
                    &&& final(self).failure == Some(r)
                    &&& final(self).pixels@.len() == 0
                })
                &&& (r == DecodingResult::Success || r == DecodingResult::IncompleteInput
                    || r.is_terminal())
                // the result code itself is pinned: it is a function of the
                // bytes fed and of whether the attempt had to reopen
                &&& r == ({
                    let data = old(self).source.fed();
                    if old(self).dec is Some && old(self).source.pending().len() == 0 {
                        spec_bmp_pixels_result(data, old(self).total_bytes)
                    } else {
                        let ro = spec_bmp_reopen_result(
                            data,
                            old(self).meta,
                            old(self).orientation,
                        );
                        if ro == DecodingResult::Success {
                            spec_bmp_pixels_result(data, old(self).total_bytes)
                        } else {
                            ro
                        }
                    }
                })
            },
    {
        match self.failure {
            Some(c) => {
                return c;
            },
            None => {},
        }
        match self.phase {
            Phase::Fresh | Phase::MetadataPending => {
                return DecodingResult::ParameterError;
            },
            Phase::PixelsReady => {
                return DecodingResult::Success;
            },
            _ => {},
        }
        self.drain_source();
        self.phase = Phase::PixelsPending;
        if self.dec.is_none() {
            match bmp_open(&self.buffered) {
                BmpOpen::Fail(f) => {
                    let r = f.to_result();
                    if r.terminal() {
                        return self.fail_with(r);
                    }
                    return r;
                },
                BmpOpen::Open(d, m) => {
                    if m != self.meta {
                        return self.fail_with(DecodingResult::FormatError);
                    }
                    let orientation = parse_orientation(&self.buffered);
                    if orientation != self.orientation {
                        return self.fail_with(DecodingResult::FormatError);
                    }
                    self.dec = Some(d);
                },
            }
        }
        let d = self.dec.take().unwrap();
        let reported = bmp_total(&d);
        if reported != self.total_bytes as u64 {
            // the decoder's own size math disagrees with the header fields
            return self.fail_with(DecodingResult::FormatError);
        }
        match bmp_read_pixels(d, self.total_bytes) {
            BmpPixels::Pixels(v) => {
                self.pixels = v;
                self.phase = Phase::PixelsReady;
                self.done_input = Ghost(self.buffered@);
                DecodingResult::Success
            },
            BmpPixels::Fail(f) => {
                let r = f.to_result();
                if r.terminal() {
                    return self.fail_with(r);
                }
                r
            },
        }
    }

    /// How many leading rows of the image are fully decoded right now.
    /// The underlying decoder completes the whole image at once.
    pub open spec fn spec_complete_rows(self) -> u32 {
        if self.phase == Phase::PixelsReady {
            self.meta.height
        } else {
            0u32
        }
    }

    /// Hands out the rows that became complete since the last call, at most
    /// once each; an empty block is a valid steady state.  The block's
    /// logical position follows the tracker's orientation: rows completed
    /// bottom-up land at the back of the buffer, so their block starts at
    /// the lowest newly completed logical row.
    pub fn pull_new_rows(&mut self) -> (out: crate::png::NewRows)
        requires
            old(self).inv(),
        ensures
            final(self).inv(),
            final(self).phase == old(self).phase,
            final(self).failure == old(self).failure,
            final(self).source == old(self).source,
            final(self).meta == old(self).meta,
            final(self).pixels == old(self).pixels,
            old(self).failure matches Some(c) ==> out.status == c && *final(self) == *old(self),
            old(self).failure is None && phase_index(old(self).phase) < 2 ==> out.status
                == DecodingResult::ParameterError && *final(self) == *old(self),
            old(self).failure is None && phase_index(old(self).phase) >= 2 ==> {
                &&& out.status == DecodingResult::Success
                &&& {
                    let decoded = old(self).spec_complete_rows();
                    let consumed = old(self).tracker.consumed;
                    if decoded <= consumed {
                        &&& out.row_count == 0
                        &&& out.bytes@ == Seq::<u8>::empty()
                        &&& final(self).tracker == old(self).tracker
                    } else {
                        &&& out.row_count == decoded - consumed
                        &&& out.row_start == (match old(self).orientation {
                            Orientation::TopDown => consumed as int,
                            Orientation::BottomUp => old(self).meta.height - decoded,
                        })
                        &&& out.bytes@ == old(self).pixels@.subrange(
                            out.row_start * old(self).stride,
                            (out.row_start + out.row_count) * old(self).stride,
                        )
                        &&& final(self).tracker.consumed == decoded
                        &&& forall|row: int|
                            row_reported(
                                old(self).orientation,
                                old(self).meta.height,
                                consumed,
                                decoded,
                                row,
                            ) <==> out.row_start <= row < out.row_start + out.row_count
                    }
                }
            },
    {
        match self.failure {
            Some(c) => {
                return crate::png::NewRows {
                    status: c,
                    row_start: 0,
                    row_count: 0,
                    bytes: Vec::new(),
                };
            },
            None => {},
        }
        match self.phase {
            Phase::Fresh | Phase::MetadataPending => {
                return crate::png::NewRows {
                    status: DecodingResult::ParameterError,
                    row_start: 0,
                    row_count: 0,
                    bytes: Vec::new(),
                };
            },
            _ => {},
        }
        let decoded = match self.phase {
            Phase::PixelsReady => self.meta.height,
            _ => 0,
        };
        let rr = self.tracker.pull(decoded);
        if rr.row_count == 0 {
            proof {
                assert(*final(self) == *old(self));
            }
            return crate::png::NewRows {
                status: DecodingResult::Success,
                row_start: 0,
                row_count: 0,
                bytes: Vec::new(),
            };
        }
        proof {
            broadcast use vstd::arithmetic::mul::lemma_mul_inequality;
            broadcast use vstd::arithmetic::mul::lemma_mul_is_distributive_add_other_way;

            assert(rr.row_start + rr.row_count <= self.meta.height);
            assert((rr.row_start + rr.row_count) * self.stride as int <= self.meta.height as int
                * self.stride as int);
            assert(self.meta.height as int * self.stride as int == self.stride as int
                * self.meta.height as int) by (nonlinear_arith);
            assert(rr.byte_offset + rr.byte_len == (rr.row_start + rr.row_count) * self.stride
                as int);
        }
        let bytes = copy_range(&self.pixels, rr.byte_offset, rr.byte_offset + rr.byte_len);
        crate::png::NewRows {
            status: DecodingResult::Success,
            row_start: rr.row_start,
            row_count: rr.row_count,
            bytes,
        }
    }

    /// Copies the next unread row, top-down, into the front of `buffer`.
    ///
    /// A no-op `Success` once every row has been read; `ParameterError` if
    /// the image is not decoded yet or the buffer is too short for one row.
    pub fn next_row(&mut self, buffer: &mut Vec<u8>) -> (r: DecodingResult)
        requires
            old(self).inv(),
        ensures
            final(self).inv(),
            final(self).phase == old(self).phase,
            final(self).failure == old(self).failure,
            final(self).source == old(self).source,
            final(self).meta == old(self).meta,
            final(self).pixels == old(self).pixels,
            old(self).failure matches Some(c) ==> {
                &&& r == c
                &&& *final(self) == *old(self)
                &&& *final(buffer) == *old(buffer)
            },
            old(self).failure is None && old(self).phase != Phase::PixelsReady ==> {
                &&& r == DecodingResult::ParameterError
                &&& *final(self) == *old(self)
                &&& *final(buffer) == *old(buffer)
            },
            old(self).failure is None && old(self).phase == Phase::PixelsReady ==> {
                let row = old(self).tracker.consumed;
                &&& (row >= old(self).meta.height ==> r == DecodingResult::Success && *final(self)
                    == *old(self) && *final(buffer) == *old(buffer))
                &&& (row < old(self).meta.height && old(buffer)@.len() < old(self).stride ==> r
                    == DecodingResult::ParameterError && *final(self) == *old(self)
                    && *final(buffer) == *old(buffer))
                &&& (row < old(self).meta.height && old(buffer)@.len() >= old(self).stride ==> {
                    &&& r == DecodingResult::Success
                    &&& final(buffer)@ == spec_splice(
                        old(buffer)@,
                        0,
                        old(self).pixels@.subrange(
                            row * old(self).stride,
                            row * old(self).stride + old(self).stride,
                        ),
                    )
                    &&& final(self).tracker.consumed == row + 1
                })
            },
    {
        match self.failure {
            Some(c) => {
                return c;
            },
            None => {},
        }
        match self.phase {
            Phase::PixelsReady => {},
            _ => {
                return DecodingResult::ParameterError;
            },
        }
        let row = self.tracker.consumed;
        if row >= self.meta.height {
            return DecodingResult::Success;
        }
        if buffer.len() < self.stride {
            return DecodingResult::ParameterError;
        }
        proof {
            broadcast use vstd::arithmetic::mul::lemma_mul_inequality;
            broadcast use vstd::arithmetic::mul::lemma_mul_is_distributive_add_other_way;

            assert((row as int + 1) * self.stride as int <= self.meta.height as int * self.stride
                as int);
            assert(self.meta.height as int * self.stride as int == self.stride as int
                * self.meta.height as int) by (nonlinear_arith);
            assert((row as int + 1) * self.stride as int == row as int * self.stride as int
                + self.stride as int);
        }
        let offset = (row as usize) * self.stride;
        let row_bytes = copy_range(&self.pixels, offset, offset + self.stride);
        splice_at(buffer, 0, &row_bytes);
        self.tracker.consumed = row + 1;
        DecodingResult::Success
    }

    /// Rewinds the row cursor, so `next_row` starts over from the top.
    pub fn reset_decode_state(&mut self)
        requires
            old(self).inv(),
        ensures
            final(self).inv(),
            final(self).tracker.consumed == 0,
            final(self).phase == old(self).phase,
            final(self).failure == old(self).failure,
            final(self).meta == old(self).meta,
            final(self).pixels == old(self).pixels,
            final(self).source == old(self).source,
    {
        self.tracker.consumed = 0;
    }

    /// Image width in pixels; meaningful once metadata is ready.
    pub fn width(&self) -> (w: u32)
        ensures
            w == self.meta.width,
    {
        self.meta.width
    }

    /// Image height in rows; meaningful once metadata is ready.
    pub fn height(&self) -> (h: u32)
        ensures
            h == self.meta.height,
    {
        self.meta.height
    }

    /// Channel order of the decoded pixels.
    pub fn color(&self) -> (c: BmpColor)
        ensures
            c == self.meta.color,
    {
        self.meta.color
    }

    /// Alpha interpretation of the decoded pixels.
    pub fn alpha(&self) -> (a: BmpAlpha)
        ensures
            a == self.meta.alpha,
    {
        self.meta.alpha
    }

    /// The row order the file declared.
    pub fn file_orientation(&self) -> (o: Orientation)
        ensures
            o == self.orientation,
    {
        self.orientation
    }

    /// Bytes per decoded row.
    pub fn output_row_stride(&self) -> (s: usize)
        ensures
            s == self.stride,
    {
        self.stride
    }
}

/// Decoding loses nothing and invents nothing: two sessions that completed
/// over the same input hold byte-identical metadata and pixels, however the
/// bytes arrived.
pub proof fn lemma_bmp_decode_deterministic(s1: BmpSession, s2: BmpSession)
    requires
        s1.inv(),
        s2.inv(),
        s1.phase == Phase::PixelsReady,
        s2.phase == Phase::PixelsReady,
        s1.done_input@ == s2.done_input@,
    ensures
        s1.meta == s2.meta,
        s1.pixels@ == s2.pixels@,
{
}

} // verus!
