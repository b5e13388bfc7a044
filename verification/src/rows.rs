//! Bookkeeping for "new rows since the last call".
//!
//! A decode session reports freshly completed pixel rows to its caller
//! exactly once.  `RowTracker` owns that bookkeeping: given the number of
//! rows the underlying decoder has completed so far, `pull` computes which
//! logical rows are newly available and where their bytes sit in the pixel
//! buffer, then marks them consumed.
//!
//! Rows may be completed top-down (the usual case) or bottom-up (legacy
//! bitmap row order).  In both cases the logical row index reported to the
//! caller is the row's position in the top-down image, so a bottom-up decode
//! reports blocks whose starting index counts downward while the pixel
//! buffer fills back-to-front.

use vstd::prelude::*;

verus! {

/// Order in which an image's rows are completed by the underlying decoder.
#[derive(Clone, Copy, Debug, PartialEq, Eq, Structural)]
pub enum Orientation {
    /// Row 0 is completed first.
    TopDown,
    /// Row `height - 1` is completed first.
    BottomUp,
}

/// A block of newly completed rows, as reported to the caller.
#[derive(Clone, Copy, Debug, PartialEq, Eq, Structural)]
pub struct RowRange {
    /// Logical (top-down) index of the first row in the block.
    pub row_start: u32,
    /// Number of rows in the block; zero means no new rows.
    pub row_count: u32,
    /// Byte offset of the block inside the pixel buffer.
    pub byte_offset: usize,
    /// Length of the block in bytes.
    pub byte_len: usize,
}

/// Tracks which completed rows have already been reported.
pub struct RowTracker {
    /// Row completion order of the underlying decoder.
    pub orientation: Orientation,
    /// Total number of rows in the image.
    pub height: u32,
    /// Bytes per row in the pixel buffer.
    pub row_stride: usize,
    /// Number of completed rows already reported to the caller.
    pub consumed: u32,
}

/// Whether logical row `r` lies in the block reported by a pull that moves
/// the consumed count from `consumed` to `decoded`.
pub open spec fn row_reported(
    orientation: Orientation,
    height: u32,
    consumed: u32,
    decoded: u32,
    r: int,
) -> bool {
    match orientation {
        Orientation::TopDown => consumed <= r < decoded,
        Orientation::BottomUp => height - decoded <= r < height - consumed,
    }
}

impl RowTracker {
    pub open spec fn wf(self) -> bool {
        &&& self.consumed <= self.height
        &&& self.row_stride * self.height <= usize::MAX
    }

    /// Creates a tracker with nothing consumed yet.
    pub fn new(orientation: Orientation, height: u32, row_stride: usize) -> (t: RowTracker)
        requires
            row_stride * height <= usize::MAX,
        ensures
            t.wf(),
            t.orientation == orientation,
            t.height == height,
            t.row_stride == row_stride,
            t.consumed == 0,
    {
        RowTracker { orientation, height, row_stride, consumed: 0 }
    }

    /// Reports the rows completed since the last call, given that the
    /// underlying decoder has now completed `decoded` rows in its own order.
    ///
    /// If nothing new is complete the result is the empty block and the
    /// tracker is unchanged; that is a valid steady state, not an error.
    /// Otherwise the block covers exactly the logical rows not yet reported,
    /// its bytes sit at `row_start * row_stride`, and those rows are marked
    /// consumed.
    pub fn pull(&mut self, decoded: u32) -> (r: RowRange)
        requires
            old(self).wf(),
            decoded <= old(self).height,
        ensures
            final(self).wf(),
            final(self).orientation == old(self).orientation,
            final(self).height == old(self).height,
            final(self).row_stride == old(self).row_stride,
            decoded <= old(self).consumed ==> {
                &&& r == (RowRange { row_start: 0, row_count: 0, byte_offset: 0, byte_len: 0 })
                &&& final(self).consumed == old(self).consumed
            },
            decoded > old(self).consumed ==> {
                &&& r.row_count == decoded - old(self).consumed
                &&& r.row_start == (match old(self).orientation {
                    Orientation::TopDown => old(self).consumed as int,
                    Orientation::BottomUp => old(self).height - decoded,
                })
                &&& r.byte_offset == r.row_start * old(self).row_stride
                &&& r.byte_len == r.row_count * old(self).row_stride
                &&& final(self).consumed == decoded
                &&& forall|row: int|
                    row_reported(
                        old(self).orientation,
                        old(self).height,
                        old(self).consumed,
                        decoded,
                        row,
                    ) <==> r.row_start <= row < r.row_start + r.row_count
            },
    {
        if decoded <= self.consumed {
            return RowRange { row_start: 0, row_count: 0, byte_offset: 0, byte_len: 0 };
        }
        let row_count = decoded - self.consumed;
        let row_start: u32 = match self.orientation {
            Orientation::TopDown => self.consumed,
            Orientation::BottomUp => self.height - decoded,
        };
        proof {
            lemma_mul_le(row_start as int, self.height as int, self.row_stride as int);
            lemma_mul_le(row_count as int, self.height as int, self.row_stride as int);
        }
        let byte_offset = (row_start as usize) * self.row_stride;
        let byte_len = (row_count as usize) * self.row_stride;
        self.consumed = decoded;
        RowRange { row_start, row_count, byte_offset, byte_len }
    }
}

/// Helper: multiplying the smaller of two row counts by the stride stays
/// within the bound set by the larger count.
proof fn lemma_mul_le(a: int, b: int, stride: int)
    requires
        0 <= a <= b,
        0 <= stride,
    ensures
        a * stride <= b * stride,
{
    broadcast use vstd::arithmetic::mul::lemma_mul_inequality;

}

/// Successive pulls never report the same row twice and never skip a row:
/// the rows reported while the completed count moves from `c0` to `d1` and
/// then from `d1` to `d2` are disjoint, and together they are exactly the
/// rows reported by a single move from `c0` to `d2`.
pub proof fn lemma_pull_rows_partition(
    orientation: Orientation,
    height: u32,
    c0: u32,
    d1: u32,
    d2: u32,
)
    requires
        c0 <= d1 <= d2 <= height,
    ensures
        forall|r: int|
            !(row_reported(orientation, height, c0, d1, r) && row_reported(
                orientation,
                height,
                d1,
                d2,
                r,
            )),
        forall|r: int|
            row_reported(orientation, height, c0, d2, r) <==> (row_reported(
                orientation,
                height,
                c0,
                d1,
                r,
            ) || row_reported(orientation, height, d1, d2, r)),
{
}

/// Bottom-up orientation places rows correctly: a decode that completes rows
/// bottom-to-front reports blocks whose starting index counts down from the
/// bottom of the image, each block lands at its logical top-down byte
/// position, and a finished decode has covered every logical row exactly
/// once.
pub proof fn lemma_bottom_up_placement(height: u32, c: u32, d1: u32, d2: u32)
    requires
        c < d1 < d2 <= height,
    ensures
        // starting indices count down as the decode progresses
        height - d2 < height - d1,
        // the block for `c -> d1` covers logical rows `height - d1 .. height - c`
        forall|r: int|
            row_reported(Orientation::BottomUp, height, c, d1, r) <==> height - d1 <= r < height
                - c,
        // a finished decode has reported every logical row
        forall|r: int| row_reported(Orientation::BottomUp, height, 0, height, r) <==> 0 <= r < height,
{
}

} // verus!
