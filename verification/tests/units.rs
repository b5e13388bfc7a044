//! Tests for the pure building blocks: result codes, byte tables, row
//! bookkeeping, pass geometry, palette and text helpers.

use skcodec::adam7::{pass_lines, pass_samples, PassPos};
use skcodec::bmp::is_bmp_data;
use skcodec::fonts::{apply_palette_overrides, pack_argb, PaletteOverride};
use skcodec::hype::hypeify;
use skcodec::icc::{a2b_to_b2a, split_table_to_curves, u16_vec_to_bytes, widen_lut8};
use skcodec::icc::{Curve, Matrix3x3, TransferFunction, A2B};
use skcodec::png::{compute_transformations, frame_duration_ms, ColorType};
use skcodec::result::DecodingResult;
use skcodec::rows::{Orientation, RowTracker};
use skcodec::source::ByteSource;
use skcodec::text::{keyword_ok, text_payload_ok};

#[test]
fn test_is_bmp_data() {
    // Valid BMP signature (BM)
    let valid_bmp = vec![b'B', b'M', 0x00, 0x00];
    assert!(is_bmp_data(&valid_bmp));

    // BA signature not yet supported by image crate
    let valid_ba = vec![b'B', b'A', 0x00, 0x00];
    assert!(!is_bmp_data(&valid_ba));

    // Invalid signature
    let invalid = vec![0x89, b'P', b'N', b'G']; // PNG signature
    assert!(!is_bmp_data(&invalid));

    // Too short
    let too_short = vec![b'B'];
    assert!(!is_bmp_data(&too_short));

    // Empty
    assert!(!is_bmp_data(&[]));
}

#[test]
fn test_u16_vec_to_bytes() {
    let values: Vec<u16> = vec![0x0000, 0x00FF, 0xFF00, 0xFFFF];
    let bytes = u16_vec_to_bytes(&values);

    assert_eq!(bytes.len(), 8);

    assert_eq!(bytes[0..2], [0x00, 0x00]);
    assert_eq!(bytes[2..4], [0xFF, 0x00]);
    assert_eq!(bytes[4..6], [0x00, 0xFF]);
    assert_eq!(bytes[6..8], [0xFF, 0xFF]);
}

#[test]
fn test_result_codes_stable() {
    assert_eq!(DecodingResult::Success.code(), 0);
    assert_eq!(DecodingResult::FormatError.code(), 1);
    assert_eq!(DecodingResult::ParameterError.code(), 2);
    assert_eq!(DecodingResult::UnsupportedFeature.code(), 3);
    assert_eq!(DecodingResult::IncompleteInput.code(), 4);
    assert_eq!(DecodingResult::LimitsExceeded.code(), 5);
    assert_eq!(DecodingResult::OtherError.code(), 6);
    assert_eq!(DecodingResult::EndOfFrame.code(), 7);
    assert!(!DecodingResult::Success.terminal());
    assert!(!DecodingResult::IncompleteInput.terminal());
    assert!(!DecodingResult::EndOfFrame.terminal());
    assert!(DecodingResult::FormatError.terminal());
    assert!(DecodingResult::LimitsExceeded.terminal());
}

#[test]
fn test_byte_source_read() {
    let mut s = ByteSource::new();
    s.feed(&[1, 2, 3, 4, 5]);
    assert_eq!(s.available(), 5);
    let mut buf = vec![0u8; 3];
    assert_eq!(s.read(&mut buf), 3);
    assert_eq!(buf, vec![1, 2, 3]);
    let mut big = vec![0u8; 10];
    assert_eq!(s.read(&mut big), 2);
    assert_eq!(&big[0..2], &[4, 5]);
    // exhausted means zero for now, not end of stream
    assert_eq!(s.read(&mut big), 0);
    s.feed(&[6]);
    assert_eq!(s.read(&mut big), 1);
    assert_eq!(big[0], 6);
}

#[test]
fn test_row_tracker_monotonic() {
    // Successive pulls never overlap and never skip a completed row.
    let mut t = RowTracker::new(Orientation::TopDown, 10, 4);
    let a = t.pull(3);
    assert_eq!((a.row_start, a.row_count, a.byte_offset, a.byte_len), (0, 3, 0, 12));
    // no new rows: a valid steady state
    let b = t.pull(2);
    assert_eq!(b.row_count, 0);
    let c = t.pull(7);
    assert_eq!((c.row_start, c.row_count, c.byte_offset), (3, 4, 12));
    let d = t.pull(10);
    assert_eq!((d.row_start, d.row_count), (7, 3));
    // coverage: 0..3, 3..7, 7..10 partitions 0..10 with no overlap
    assert_eq!(a.row_start + a.row_count, c.row_start);
    assert_eq!(c.row_start + c.row_count, d.row_start);
    assert_eq!(d.row_start + d.row_count, 10);
}

#[test]
fn test_row_tracker_bottom_up() {
    // A bottom-up decode reports blocks whose start counts down, landing
    // every row at its logical top-down position exactly once.
    let mut t = RowTracker::new(Orientation::BottomUp, 4, 2);
    let a = t.pull(1);
    assert_eq!((a.row_start, a.row_count, a.byte_offset, a.byte_len), (3, 1, 6, 2));
    let b = t.pull(3);
    assert_eq!((b.row_start, b.row_count, b.byte_offset, b.byte_len), (1, 2, 2, 4));
    let c = t.pull(4);
    assert_eq!((c.row_start, c.row_count, c.byte_offset), (0, 1, 0));
    // starts counted down from the bottom of the image
    assert!(b.row_start < a.row_start && c.row_start < b.row_start);
    // and the blocks tile the whole image
    assert_eq!(a.row_start + a.row_count, 4);
    assert_eq!(b.row_start + b.row_count, a.row_start);
    assert_eq!(c.row_start + c.row_count, b.row_start);
}

#[test]
fn test_adam7_pass_geometry() {
    // the classic 8x8 pattern
    let expect_samples = [1u32, 1, 2, 2, 4, 4, 8];
    let expect_lines = [1u32, 1, 1, 2, 2, 4, 4];
    for p in 1..=7u8 {
        assert_eq!(pass_samples(p, 8), expect_samples[(p - 1) as usize]);
        assert_eq!(pass_lines(p, 8), expect_lines[(p - 1) as usize]);
    }
    // a 1x1 image has a single row, in pass 1
    assert_eq!(pass_samples(1, 1), 1);
    assert_eq!(pass_lines(1, 1), 1);
    assert_eq!(pass_samples(2, 1), 0);
    let first = skcodec::adam7::first_pos_from(1, 1, 1);
    assert_eq!(first, PassPos { pass: 1, line: 0 });
    let next = skcodec::adam7::advance_pos(1, 1, first);
    assert_eq!(next.pass, 8);
}

#[test]
fn test_compute_transformations() {
    let f = compute_transformations(ColorType::Rgb, 8);
    assert!(f.expand && !f.strip_16);
    let f = compute_transformations(ColorType::Grayscale, 16);
    assert!(f.expand && f.strip_16);
    let f = compute_transformations(ColorType::Indexed, 4);
    assert!(!f.expand && !f.strip_16);
    let f = compute_transformations(ColorType::Rgba, 8);
    assert!(!f.expand && !f.strip_16);
    let f = compute_transformations(ColorType::GrayscaleAlpha, 4);
    assert!(f.expand && !f.strip_16);
    let f = compute_transformations(ColorType::Rgba, 16);
    assert!(!f.expand && !f.strip_16);
}

#[test]
fn test_frame_duration() {
    // a zero denominator reads as hundredths of a second
    assert_eq!(frame_duration_ms(7, 0), 70);
    assert_eq!(frame_duration_ms(1, 2), 500);
    assert_eq!(frame_duration_ms(3, 1000), 3);
    assert_eq!(frame_duration_ms(0, 0), 0);
}

#[test]
fn test_widen_lut8() {
    let out = widen_lut8(&[0, 1, 128, 255]);
    assert_eq!(out, vec![0, 257, 32896, 65535]);
}

#[test]
fn test_split_table_to_curves() {
    // two channels of three entries each
    let table: Vec<u16> = vec![1, 2, 3, 4, 5, 6];
    let curves = split_table_to_curves(&table, 3, 2);
    assert_eq!(curves.len(), 2);
    assert_eq!(curves[0].table_entries, 3);
    assert_eq!(curves[0].table_data, u16_vec_to_bytes(&[1, 2, 3]));
    assert_eq!(curves[1].table_data, u16_vec_to_bytes(&[4, 5, 6]));
    assert_eq!(curves[0].parametric, TransferFunction::default());

    // too small for the layout: no curves at all
    assert_eq!(split_table_to_curves(&table, 4, 2).len(), 0);
    assert_eq!(split_table_to_curves(&[], 0, 3).len(), 0);
}

#[test]
fn test_a2b_to_b2a() {
    let a2b = A2B {
        input_curves: vec![Curve {
            table_entries: 2,
            parametric: TransferFunction::default(),
            table_data: vec![1, 2, 3, 4],
        }],
        input_channels: 4,
        grid_points: [2, 2, 2, 2],
        grid_data: vec![9, 9],
        is_16bit_grid: true,
        matrix_curves: vec![],
        matrix: Matrix3x3 { vals: [[0; 3]; 3] },
        matrix_bias: [0, 0, 0],
        matrix_channels: 0,
        output_curves: vec![Curve {
            table_entries: 0,
            parametric: TransferFunction::default(),
            table_data: vec![],
        }],
        output_channels: 3,
    };
    let b2a = a2b_to_b2a(a2b);
    // directions swapped: outputs became inputs and vice versa
    assert_eq!(b2a.input_channels, 3);
    assert_eq!(b2a.output_channels, 4);
    assert_eq!(b2a.input_curves.len(), 1);
    assert_eq!(b2a.input_curves[0].table_entries, 0);
    assert_eq!(b2a.output_curves[0].table_data, vec![1, 2, 3, 4]);
    assert_eq!(b2a.grid_points, [2, 2, 2, 2]);
    assert!(b2a.is_16bit_grid);
    assert_eq!(b2a.grid_data, vec![9, 9]);
}

#[test]
fn test_hypeify() {
    let out = hypeify(String::from("hello"), 3);
    assert_eq!(out.output, "HELLO!!!");
    assert_eq!(out.new_len, 8);

    let out = hypeify(String::from("Mixed Case"), 0);
    assert_eq!(out.output, "MIXED CASE");
    assert_eq!(out.new_len, 10);

    // a negative count appends nothing
    let out = hypeify(String::from("x"), -2);
    assert_eq!(out.output, "X");
    assert_eq!(out.new_len, 1);

    let out = hypeify(String::new(), 2);
    assert_eq!(out.output, "!!");
    assert_eq!(out.new_len, 2);
}

#[test]
fn test_text_validation() {
    assert!(text_payload_ok(b"plain text, with punctuation!"));
    assert!(text_payload_ok(b"line\nfeed"));
    assert!(text_payload_ok(&[0xa0, 0xff])); // non-breaking space is text
    assert!(!text_payload_ok(&[0x1f])); // control characters are not
    assert!(!text_payload_ok(&[0x7f]));
    assert!(!text_payload_ok(b"tab\tis not latin-1 text"));

    assert!(keyword_ok(b"Comment"));
    assert!(keyword_ok(&[0xa1, 0xff]));
    assert!(!keyword_ok(&[0xa0])); // no non-breaking space in keywords
    assert!(!keyword_ok(b"no\nnewline"));
    assert!(keyword_ok(b""));
}

#[test]
fn test_palette_overrides() {
    let mut palette: Vec<u32> = vec![10, 11, 12, 13];
    let overrides = [
        PaletteOverride { index: 1, color_8888: 99 },
        PaletteOverride { index: 9, color_8888: 7 }, // out of range: ignored
        PaletteOverride { index: 1, color_8888: 42 }, // later override wins
        PaletteOverride { index: 3, color_8888: 8 },
    ];
    apply_palette_overrides(&mut palette, &overrides);
    assert_eq!(palette, vec![10, 42, 12, 8]);
}

#[test]
fn test_pack_argb() {
    assert_eq!(pack_argb(0xff, 0x10, 0x20, 0x30), 0xff10_2030);
    assert_eq!(pack_argb(0, 0, 0, 0), 0);
    assert_eq!(pack_argb(1, 0, 0, 255), 0x0100_00ff);
}
