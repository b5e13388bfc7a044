//! Pass geometry for Adam7 interlacing.
//!
//! An interlaced image is decoded in up to seven passes, each carrying a
//! subsample of the pixels.  For an image of a given width and height the
//! sequence of (pass, line) pairs produced by the decoder is fixed; this
//! module computes that sequence, so a session can know, for every sparse
//! row it receives, exactly where the row's pixels land in the final image.
//!
//! Pass constants follow the standard Adam7 pattern: pass `p` samples every
//! `x_sampling(p)`-th pixel starting at column `x_offset(p)`, on every
//! `y_sampling(p)`-th row starting at row `y_offset(p)`.

use vstd::prelude::*;

verus! {

/// Horizontal sampling interval of a pass.
pub open spec fn spec_x_sampling(pass: u8) -> u32 {
    match pass {
        1u8 => 8u32,
        2u8 => 8u32,
        3u8 => 4u32,
        4u8 => 4u32,
        5u8 => 2u32,
        6u8 => 2u32,
        _ => 1u32,
    }
}

/// First sampled column of a pass.
pub open spec fn spec_x_offset(pass: u8) -> u32 {
    match pass {
        1u8 => 0u32,
        2u8 => 4u32,
        3u8 => 0u32,
        4u8 => 2u32,
        5u8 => 0u32,
        6u8 => 1u32,
        _ => 0u32,
    }
}

/// Vertical sampling interval of a pass.
pub open spec fn spec_y_sampling(pass: u8) -> u32 {
    match pass {
        1u8 => 8u32,
        2u8 => 8u32,
        3u8 => 8u32,
        4u8 => 4u32,
        5u8 => 4u32,
        6u8 => 2u32,
        _ => 2u32,
    }
}

/// First sampled row of a pass.
pub open spec fn spec_y_offset(pass: u8) -> u32 {
    match pass {
        1u8 => 0u32,
        2u8 => 0u32,
        3u8 => 4u32,
        4u8 => 0u32,
        5u8 => 2u32,
        6u8 => 0u32,
        _ => 1u32,
    }
}

/// Number of pixels a pass samples from a row of `width` pixels.
pub open spec fn spec_pass_samples(pass: u8, width: u32) -> int {
    if width > spec_x_offset(pass) {
        (width - spec_x_offset(pass) + spec_x_sampling(pass) - 1) / spec_x_sampling(pass) as int
    } else {
        0
    }
}

/// Number of lines a pass has in an image of `height` rows.
pub open spec fn spec_pass_lines(pass: u8, height: u32) -> int {
    if height > spec_y_offset(pass) {
        (height - spec_y_offset(pass) + spec_y_sampling(pass) - 1) / spec_y_sampling(pass) as int
    } else {
        0
    }
}

/// Whether a pass contributes any rows at all for the given dimensions.
pub open spec fn spec_pass_active(pass: u8, width: u32, height: u32) -> bool {
    spec_pass_samples(pass, width) > 0 && spec_pass_lines(pass, height) > 0
}

/// A position in the Adam7 row sequence: the pass and the line within it.
/// `pass == 8` marks the end of the sequence.
#[derive(Clone, Copy, Debug, PartialEq, Eq, Structural)]
pub struct PassPos {
    pub pass: u8,
    pub line: u32,
}

/// A position is either the end marker or a line that the sequence for
/// these dimensions actually produces.
pub open spec fn pos_valid(width: u32, height: u32, pos: PassPos) -> bool {
    ||| pos.pass == 8 && pos.line == 0
    ||| {
        &&& 1 <= pos.pass <= 7
        &&& spec_pass_active(pos.pass, width, height)
        &&& pos.line < spec_pass_lines(pos.pass, height)
    }
}

/// The first active pass at or after `pass`, as a position.
pub open spec fn spec_first_pos_from(width: u32, height: u32, pass: u8) -> PassPos
    decreases 8 - pass,
{
    if pass >= 8 {
        PassPos { pass: 8, line: 0 }
    } else if spec_pass_active(pass, width, height) {
        PassPos { pass, line: 0 }
    } else {
        spec_first_pos_from(width, height, (pass + 1) as u8)
    }
}

/// The position that follows `pos` in the row sequence.
pub open spec fn spec_advance(width: u32, height: u32, pos: PassPos) -> PassPos {
    if pos.pass >= 8 {
        pos
    } else if pos.line + 1 < spec_pass_lines(pos.pass, height) {
        PassPos { pass: pos.pass, line: (pos.line + 1) as u32 }
    } else {
        spec_first_pos_from(width, height, (pos.pass + 1) as u8)
    }
}

/// The `k`-th position of the row sequence for the given dimensions.
pub open spec fn spec_pos_at(width: u32, height: u32, k: int) -> PassPos
    decreases k,
{
    if k <= 0 {
        spec_first_pos_from(width, height, 1)
    } else {
        spec_advance(width, height, spec_pos_at(width, height, k - 1))
    }
}

pub proof fn lemma_first_pos_valid(width: u32, height: u32, pass: u8)
    requires
        1 <= pass <= 8,
    ensures
        pos_valid(width, height, spec_first_pos_from(width, height, pass)),
        spec_first_pos_from(width, height, pass).pass >= pass,
    decreases 8 - pass,
{
    if pass < 8 && !spec_pass_active(pass, width, height) {
        lemma_first_pos_valid(width, height, (pass + 1) as u8);
    }
}

pub proof fn lemma_advance_valid(width: u32, height: u32, pos: PassPos)
    requires
        pos_valid(width, height, pos),
    ensures
        pos_valid(width, height, spec_advance(width, height, pos)),
{
    if pos.pass < 8 && !(pos.line + 1 < spec_pass_lines(pos.pass, height)) {
        lemma_first_pos_valid(width, height, (pos.pass + 1) as u8);
    }
}

/// Ranking of a position: strictly decreasing along the row sequence, so
/// the sequence is finite.
pub open spec fn pos_measure(height: u32, pos: PassPos) -> int {
    (8 - pos.pass) * 0x1_0000_0000 + (spec_pass_lines(pos.pass, height) - pos.line)
}

/// A pass never has more lines than the image has rows.
pub proof fn lemma_lines_le_height(height: u32, pass: u8)
    ensures
        0 <= spec_pass_lines(pass, height) <= height,
{
    if height > spec_y_offset(pass) {
        let yo = spec_y_offset(pass) as int;
        let ys = spec_y_sampling(pass) as int;
        assert((height - yo + ys - 1) / ys <= height) by (nonlinear_arith)
            requires
                1 <= ys <= 8,
                0 <= yo,
                height > yo,
        ;
        assert((height - yo + ys - 1) / ys >= 0) by (nonlinear_arith)
            requires
                1 <= ys <= 8,
                0 <= yo,
                height > yo,
        ;
    }
}

/// The measure of any valid position is non-negative and bounded.
pub proof fn lemma_measure_bounds(width: u32, height: u32, pos: PassPos)
    requires
        pos_valid(width, height, pos),
    ensures
        0 <= pos_measure(height, pos) <= 9 * 0x1_0000_0000,
{
    lemma_lines_le_height(height, pos.pass);
}

/// The measure of a valid position is non-negative and bounded, and each
/// advance step strictly decreases it.
pub proof fn lemma_advance_measure(width: u32, height: u32, pos: PassPos)
    requires
        pos_valid(width, height, pos),
        pos.pass != 8,
    ensures
        pos_measure(height, spec_advance(width, height, pos)) < pos_measure(height, pos),
        pos_measure(height, spec_advance(width, height, pos)) >= 0,
        pos_measure(height, pos) <= 9 * 0x1_0000_0000,
{
    let next = spec_advance(width, height, pos);
    lemma_advance_valid(width, height, pos);
    lemma_lines_le_height(height, pos.pass);
    lemma_lines_le_height(height, next.pass);
    if !(pos.line + 1 < spec_pass_lines(pos.pass, height)) {
        lemma_first_pos_valid(width, height, (pos.pass + 1) as u8);
    }
}

/// Every position of the sequence is valid.
pub proof fn lemma_pos_at_valid(width: u32, height: u32, k: int)
    ensures
        pos_valid(width, height, spec_pos_at(width, height, k)),
    decreases k,
{
    if k <= 0 {
        lemma_first_pos_valid(width, height, 1);
    } else {
        lemma_pos_at_valid(width, height, k - 1);
        lemma_advance_valid(width, height, spec_pos_at(width, height, k - 1));
    }
}

/// Exec mirror of `spec_pass_samples`.
pub fn pass_samples(pass: u8, width: u32) -> (n: u32)
    requires
        1 <= pass <= 7,
    ensures
        n == spec_pass_samples(pass, width),
{
    let xo = x_offset(pass);
    let xs = x_sampling(pass);
    if width > xo {
        (((width - xo) as u64 + (xs - 1) as u64) / xs as u64) as u32
    } else {
        0
    }
}

/// Exec mirror of `spec_pass_lines`.
pub fn pass_lines(pass: u8, height: u32) -> (n: u32)
    requires
        1 <= pass <= 7,
    ensures
        n == spec_pass_lines(pass, height),
{
    let yo = y_offset(pass);
    let ys = y_sampling(pass);
    if height > yo {
        (((height - yo) as u64 + (ys - 1) as u64) / ys as u64) as u32
    } else {
        0
    }
}

pub fn x_sampling(pass: u8) -> (n: u32)
    ensures
        n == spec_x_sampling(pass),
{
    match pass {
        1 => 8,
        2 => 8,
        3 => 4,
        4 => 4,
        5 => 2,
        6 => 2,
        _ => 1,
    }
}

pub fn x_offset(pass: u8) -> (n: u32)
    ensures
        n == spec_x_offset(pass),
{
    match pass {
        1 => 0,
        2 => 4,
        3 => 0,
        4 => 2,
        5 => 0,
        6 => 1,
        _ => 0,
    }
}

pub fn y_sampling(pass: u8) -> (n: u32)
    ensures
        n == spec_y_sampling(pass),
{
    match pass {
        1 => 8,
        2 => 8,
        3 => 8,
        4 => 4,
        5 => 4,
        6 => 2,
        _ => 2,
    }
}

pub fn y_offset(pass: u8) -> (n: u32)
    ensures
        n == spec_y_offset(pass),
{
    match pass {
        1 => 0,
        2 => 0,
        3 => 4,
        4 => 0,
        5 => 2,
        6 => 0,
        _ => 1,
    }
}

/// Exec mirror of `spec_first_pos_from`.
pub fn first_pos_from(width: u32, height: u32, pass: u8) -> (pos: PassPos)
    requires
        1 <= pass <= 8,
    ensures
        pos == spec_first_pos_from(width, height, pass),
        pos_valid(width, height, pos),
    decreases 8 - pass,
{
    proof {
        lemma_first_pos_valid(width, height, pass);
    }
    if pass >= 8 {
        PassPos { pass: 8, line: 0 }
    } else {
        let s = pass_samples(pass, width);
        let l = pass_lines(pass, height);
        if s > 0 && l > 0 {
            PassPos { pass, line: 0 }
        } else {
            first_pos_from(width, height, pass + 1)
        }
    }
}

/// Exec mirror of `spec_advance`.
pub fn advance_pos(width: u32, height: u32, pos: PassPos) -> (next: PassPos)
    requires
        pos_valid(width, height, pos),
    ensures
        next == spec_advance(width, height, pos),
        pos_valid(width, height, next),
        pos.pass < 8 ==> (next.pass > pos.pass || (next.pass == pos.pass && next.line == pos.line
            + 1)),
{
    proof {
        lemma_advance_valid(width, height, pos);
        if pos.pass < 8 && !(pos.line + 1 < spec_pass_lines(pos.pass, height)) {
            lemma_first_pos_valid(width, height, (pos.pass + 1) as u8);
        }
    }
    if pos.pass >= 8 {
        pos
    } else {
        let l = pass_lines(pos.pass, height);
        if pos.line + 1 < l {
            PassPos { pass: pos.pass, line: pos.line + 1 }
        } else {
            first_pos_from(width, height, pos.pass + 1)
        }
    }
}

/// Bytes needed for `width` pixels of `bits_per_pixel` bits each, rounded up
/// to whole bytes.
pub open spec fn spec_row_bytes(width: u32, bits_per_pixel: u8) -> int {
    (width * bits_per_pixel + 7) / 8
}

/// Exec mirror of `spec_row_bytes`; the result fits `u64` comfortably.
pub fn row_bytes_u64(width: u32, bits_per_pixel: u8) -> (n: u64)
    ensures
        n == spec_row_bytes(width, bits_per_pixel),
{
    assert(width as u64 * bits_per_pixel as u64 <= 0xffff_ffff_u64 * 255) by (nonlinear_arith)
        requires
            width <= u32::MAX,
            bits_per_pixel <= 255,
    ;
    (width as u64 * bits_per_pixel as u64 + 7) / 8
}

/// The pixel sizes the expansion step accepts: sub-byte powers of two, or a
/// whole number of bytes up to eight.
pub open spec fn spec_valid_bpp(bits_per_pixel: u8) -> bool {
    ||| bits_per_pixel == 1
    ||| bits_per_pixel == 2
    ||| bits_per_pixel == 4
    ||| (bits_per_pixel >= 8 && bits_per_pixel <= 64 && bits_per_pixel % 8 == 0)
}

pub fn valid_bpp(bits_per_pixel: u8) -> (ok: bool)
    ensures
        ok == spec_valid_bpp(bits_per_pixel),
{
    bits_per_pixel == 1 || bits_per_pixel == 2 || bits_per_pixel == 4 || (bits_per_pixel >= 8
        && bits_per_pixel <= 64 && bits_per_pixel % 8 == 0)
}

} // verus!
