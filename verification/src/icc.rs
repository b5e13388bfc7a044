//! Table plumbing for color-profile transforms.
//!
//! A parsed color profile carries per-channel tone curves and
//! device-to-connection-space transforms.  This module holds the exact
//! byte- and table-level conversions those structures need: widening 8-bit
//! lookup tables, serializing 16-bit tables to little-endian bytes,
//! splitting a flat table into per-channel curves, and reversing a
//! device-to-PCS transform into its PCS-to-device mirror.
//!
//! The numeric curve parameters are carried as raw 32-bit float bit
//! patterns; nothing here interprets them, it only moves them.

use vstd::prelude::*;

verus! {

/// Parametric transfer-function coefficients, as raw float bit patterns.
#[derive(Clone, Copy, Debug, PartialEq, Eq, Structural)]
pub struct TransferFunction {
    pub g: u32,
    pub a: u32,
    pub b: u32,
    pub c: u32,
    pub d: u32,
    pub e: u32,
    pub f: u32,
}

/// The all-zero coefficients (every field the bit pattern of zero).
pub open spec fn spec_tf_default() -> TransferFunction {
    TransferFunction { g: 0, a: 0, b: 0, c: 0, d: 0, e: 0, f: 0 }
}

impl Default for TransferFunction {
    fn default() -> (r: TransferFunction)
        ensures
            r == spec_tf_default(),
    {
        TransferFunction { g: 0, a: 0, b: 0, c: 0, d: 0, e: 0, f: 0 }
    }
}

/// A 3x3 matrix of raw float bit patterns.
#[derive(Clone, Copy, Debug)]
pub struct Matrix3x3 {
    pub vals: [[u32; 3]; 3],
}

/// One curve of a transform: parametric, or a table of 16-bit entries
/// serialized as little-endian bytes.
#[derive(Debug)]
pub struct Curve {
    /// Zero for a parametric curve, else the number of table entries.
    pub table_entries: u32,
    pub parametric: TransferFunction,
    pub table_data: Vec<u8>,
}

/// A device-to-connection-space transform.
#[derive(Debug)]
pub struct A2B {
    pub input_curves: Vec<Curve>,
    pub input_channels: u32,
    pub grid_points: [u8; 4],
    pub grid_data: Vec<u8>,
    pub is_16bit_grid: bool,
    pub matrix_curves: Vec<Curve>,
    pub matrix: Matrix3x3,
    pub matrix_bias: [u32; 3],
    pub matrix_channels: u32,
    pub output_curves: Vec<Curve>,
    pub output_channels: u32,
}

/// A connection-space-to-device transform.
#[derive(Debug)]
pub struct B2A {
    pub input_curves: Vec<Curve>,
    pub input_channels: u32,
    pub matrix: Matrix3x3,
    pub matrix_bias: [u32; 3],
    pub matrix_curves: Vec<Curve>,
    pub matrix_channels: u32,
    pub grid_points: [u8; 4],
    pub grid_data: Vec<u8>,
    pub is_16bit_grid: bool,
    pub output_curves: Vec<Curve>,
    pub output_channels: u32,
}

/// The little-endian serialization of a sequence of 16-bit values.
pub open spec fn spec_le_bytes(vals: Seq<u16>) -> Seq<u8> {
    Seq::new(
        (2 * vals.len()) as nat,
        |i: int|
            if i % 2 == 0 {
                (vals[i / 2] % 256) as u8
            } else {
                (vals[i / 2] / 256) as u8
            },
    )
}

/// Serializes 16-bit values to bytes, low byte first.
pub fn u16_vec_to_bytes(values: &[u16]) -> (out: Vec<u8>)
    ensures
        out@ == spec_le_bytes(values@),
{
    let n = values.len();
    let mut out: Vec<u8> = Vec::new();
    let mut i: usize = 0;
    while i < n
        invariant
            i <= n,
            n == values@.len(),
            out@ == spec_le_bytes(values@.take(i as int)),
        decreases n - i,
    {
        let v = values[i];
        out.push((v % 256) as u8);
        out.push((v / 256) as u8);
        proof {
            assert(out@ =~= spec_le_bytes(values@.take(i + 1)));
        }
        i += 1;
    }
    proof {
        assert(values@.take(n as int) =~= values@);
    }
    out
}

/// Widens an 8-bit lookup table to 16 bits by repeating each byte in both
/// halves, so 0 maps to 0 and 255 to 65535.
pub fn widen_lut8(table: &[u8]) -> (out: Vec<u16>)
    ensures
        out@.len() == table@.len(),
        forall|i: int| 0 <= i < table@.len() ==> out@[i] == 257 * table@[i],
{
    let n = table.len();
    let mut out: Vec<u16> = Vec::new();
    let mut i: usize = 0;
    while i < n
        invariant
            i <= n,
            n == table@.len(),
            out@.len() == i,
            forall|j: int| 0 <= j < i ==> out@[j] == 257 * table@[j],
        decreases n - i,
    {
        let v: u16 = table[i] as u16;
        out.push((v << 8u16) | v);
        proof {
            assert((v << 8u16) | v == 257 * v) by (bit_vector)
                requires
                    v < 256,
            ;
        }
        i += 1;
    }
    out
}

/// What `split_table_to_curves` promises of the curve for channel `ch`.
pub open spec fn spec_channel_curve(table: Seq<u16>, entries: int, ch: int, c: Curve) -> bool {
    &&& c.table_entries == entries
    &&& c.parametric == spec_tf_default()
    &&& c.table_data@ == spec_le_bytes(table.subrange(ch * entries, (ch + 1) * entries))
}

/// Splits a flat table into one curve per channel, each holding its
/// `entries_per_channel` consecutive values as little-endian bytes.  A
/// table too small for the expected layout yields no curves at all, as
/// does a channel size beyond what a curve can record.
pub fn split_table_to_curves(
    table_data: &[u16],
    entries_per_channel: usize,
    num_channels: usize,
) -> (out: Vec<Curve>)
    ensures
        ({
            let e = entries_per_channel as int;
            let n = num_channels as int;
            if table_data@.len() == 0 || table_data@.len() < e * n || e > u32::MAX {
                out@.len() == 0
            } else {
                &&& out@.len() == n
                &&& forall|ch: int|
                    0 <= ch < n ==> spec_channel_curve(table_data@, e, ch, #[trigger] out@[ch])
            }
        }),
{
    proof {
        assert((entries_per_channel as u128) * (num_channels as u128) < u128::MAX)
            by (nonlinear_arith)
            requires
                entries_per_channel <= usize::MAX,
                num_channels <= usize::MAX,
        ;
    }
    let needed: u128 = (entries_per_channel as u128) * (num_channels as u128);
    if table_data.len() == 0 || (table_data.len() as u128) < needed {
        return Vec::new();
    }
    if entries_per_channel > u32::MAX as usize {
        return Vec::new();
    }
    let e = entries_per_channel;
    let n = num_channels;
    let tlen = table_data.len();
    let mut out: Vec<Curve> = Vec::new();
    let mut ch: usize = 0;
    while ch < n
        invariant
            ch <= n,
            e == entries_per_channel,
            n == num_channels,
            e <= u32::MAX,
            tlen == table_data@.len(),
            e as int * n as int <= tlen,
            out@.len() == ch,
            forall|k: int|
                0 <= k < ch ==> spec_channel_curve(table_data@, e as int, k, #[trigger] out@[k]),
        decreases n - ch,
    {
        proof {
            broadcast use vstd::arithmetic::mul::lemma_mul_inequality;
            broadcast use vstd::arithmetic::mul::lemma_mul_is_distributive_add_other_way;

            assert((ch + 1) as int * e as int <= n as int * e as int);
            assert(n as int * e as int == e as int * n as int) by (nonlinear_arith);
            assert((ch + 1) as int * e as int == ch as int * e as int + e as int);
        }
        let start = ch * e;
        let chunk = vstd::slice::slice_subrange(table_data, start, start + e);
        let bytes = u16_vec_to_bytes(chunk);
        let curve = Curve {
            table_entries: e as u32,
            parametric: TransferFunction::default(),
            table_data: bytes,
        };
        out.push(curve);
        ch += 1;
    }
    out
}

/// Reverses a device-to-PCS transform into the PCS-to-device direction:
/// output curves become input curves and vice versa, while the grid, the
/// matrix stage and every channel count cross over unchanged.
pub fn a2b_to_b2a(a2b: A2B) -> (out: B2A)
    ensures
        out.input_curves == a2b.output_curves,
        out.input_channels == a2b.output_channels,
        out.matrix == a2b.matrix,
        out.matrix_bias == a2b.matrix_bias,
        out.matrix_curves == a2b.matrix_curves,
        out.matrix_channels == a2b.matrix_channels,
        out.grid_points == a2b.grid_points,
        out.grid_data == a2b.grid_data,
        out.is_16bit_grid == a2b.is_16bit_grid,
        out.output_curves == a2b.input_curves,
        out.output_channels == a2b.input_channels,
{
    B2A {
        input_curves: a2b.output_curves,
        input_channels: a2b.output_channels,
        matrix: a2b.matrix,
        matrix_bias: a2b.matrix_bias,
        matrix_curves: a2b.matrix_curves,
        matrix_channels: a2b.matrix_channels,
        grid_points: a2b.grid_points,
        grid_data: a2b.grid_data,
        is_16bit_grid: a2b.is_16bit_grid,
        output_curves: a2b.input_curves,
        output_channels: a2b.input_channels,
    }
}

} // verus!
