//! End-to-end tests of the BMP decode session, against bitmaps built byte
//! by byte in this file.

use skcodec::bmp::{is_bmp_data, BmpAlpha, BmpColor, BmpSession};
use skcodec::result::DecodingResult;
use skcodec::rows::Orientation;
use skcodec::source::ByteSource;

/// A 24-bit bitmap with an info header.  `rows_topdown` holds RGB pixel
/// rows in logical order; `top_down_file` picks the height sign, and the
/// pixel array is written bottom-up unless the file is marked top-down.
fn bmp24(width: u32, rows_topdown: &[Vec<[u8; 3]>], top_down_file: bool) -> Vec<u8> {
    let height = rows_topdown.len() as u32;
    let row_bytes = (width * 3) as usize;
    let padded = (row_bytes + 3) / 4 * 4;
    let pixel_bytes = padded * height as usize;
    let file_size = 14 + 40 + pixel_bytes;

    let mut v = Vec::new();
    v.extend_from_slice(b"BM");
    v.extend_from_slice(&(file_size as u32).to_le_bytes());
    v.extend_from_slice(&[0, 0, 0, 0]);
    v.extend_from_slice(&54u32.to_le_bytes());
    v.extend_from_slice(&40u32.to_le_bytes());
    v.extend_from_slice(&(width as i32).to_le_bytes());
    let h_field: i32 = if top_down_file { -(height as i32) } else { height as i32 };
    v.extend_from_slice(&h_field.to_le_bytes());
    v.extend_from_slice(&1u16.to_le_bytes());
    v.extend_from_slice(&24u16.to_le_bytes());
    v.extend_from_slice(&0u32.to_le_bytes()); // no compression
    v.extend_from_slice(&(pixel_bytes as u32).to_le_bytes());
    v.extend_from_slice(&2835u32.to_le_bytes());
    v.extend_from_slice(&2835u32.to_le_bytes());
    v.extend_from_slice(&0u32.to_le_bytes());
    v.extend_from_slice(&0u32.to_le_bytes());

    let mut write_row = |row: &Vec<[u8; 3]>, v: &mut Vec<u8>| {
        for px in row {
            // stored blue-green-red
            v.push(px[2]);
            v.push(px[1]);
            v.push(px[0]);
        }
        for _ in row_bytes..padded {
            v.push(0);
        }
    };
    if top_down_file {
        for row in rows_topdown {
            write_row(row, &mut v);
        }
    } else {
        for row in rows_topdown.iter().rev() {
            write_row(row, &mut v);
        }
    }
    v
}

fn rgb_rows() -> Vec<Vec<[u8; 3]>> {
    vec![
        vec![[255, 0, 0], [0, 255, 0]], // red, green
        vec![[0, 0, 255], [255, 255, 255]], // blue, white
    ]
}

fn flat(rows: &[Vec<[u8; 3]>]) -> Vec<u8> {
    let mut v = Vec::new();
    for row in rows {
        for px in row {
            v.extend_from_slice(px);
        }
    }
    v
}

#[test]
fn test_bmp_corrupted_signature_is_skipped() {
    // format sniffing is the caller's precondition: these bytes are not
    // bitmap data, so no session is constructed for them
    let bogus = [0x00u8, 0x00, 0x01, 0x02, 0x03, 0x04];
    assert!(!is_bmp_data(&bogus));
    // a session fed them anyway fails terminally, and stays failed
    let mut s = BmpSession::new(ByteSource::new());
    s.feed(&bogus);
    assert_eq!(s.read_metadata(), DecodingResult::FormatError);
    assert_eq!(s.read_metadata(), DecodingResult::FormatError);
    assert_eq!(s.read_image_data(), DecodingResult::FormatError);
    assert_eq!(s.pull_new_rows().status, DecodingResult::FormatError);
}

#[test]
fn test_bmp_bottom_up_decodes_top_down() {
    let rows = rgb_rows();
    let data = bmp24(2, &rows, false);
    assert!(is_bmp_data(&data));

    let mut s = BmpSession::new(ByteSource::new());
    s.feed(&data);
    assert_eq!(s.read_metadata(), DecodingResult::Success);
    assert_eq!((s.width(), s.height()), (2, 2));
    assert_eq!(s.color(), BmpColor::RGB);
    assert_eq!(s.alpha(), BmpAlpha::Opaque);
    assert_eq!(s.file_orientation(), Orientation::BottomUp);
    assert_eq!(s.output_row_stride(), 6);
    // metadata reads stay idempotent
    assert_eq!(s.read_metadata(), DecodingResult::Success);

    assert_eq!(s.read_image_data(), DecodingResult::Success);
    // the decoded buffer is in logical top-down row order even though the
    // file stored its rows bottom-up
    let pull = s.pull_new_rows();
    assert_eq!(pull.status, DecodingResult::Success);
    assert_eq!((pull.row_start, pull.row_count), (0, 2));
    assert_eq!(pull.bytes, flat(&rows));
    // nothing new on a second pull
    let again = s.pull_new_rows();
    assert_eq!(again.row_count, 0);
}

#[test]
fn test_bmp_top_down_file() {
    let rows = rgb_rows();
    let data = bmp24(2, &rows, true);
    let mut s = BmpSession::new(ByteSource::new());
    s.feed(&data);
    assert_eq!(s.read_metadata(), DecodingResult::Success);
    assert_eq!(s.file_orientation(), Orientation::TopDown);
    assert_eq!(s.read_image_data(), DecodingResult::Success);
    let pull = s.pull_new_rows();
    assert_eq!(pull.bytes, flat(&rows));
}

#[test]
fn test_bmp_next_row_cursor() {
    let rows = rgb_rows();
    let data = bmp24(2, &rows, false);
    let mut s = BmpSession::new(ByteSource::new());
    s.feed(&data);
    // rows before decode are a caller mistake, not a stream failure
    let mut buf = vec![0u8; 6];
    assert_eq!(s.next_row(&mut buf), DecodingResult::ParameterError);
    assert_eq!(s.read_metadata(), DecodingResult::Success);
    assert_eq!(s.read_image_data(), DecodingResult::Success);

    // a too-short buffer is refused
    let mut short = vec![0u8; 5];
    assert_eq!(s.next_row(&mut short), DecodingResult::ParameterError);

    assert_eq!(s.next_row(&mut buf), DecodingResult::Success);
    assert_eq!(buf, vec![255, 0, 0, 0, 255, 0]);
    assert_eq!(s.next_row(&mut buf), DecodingResult::Success);
    assert_eq!(buf, vec![0, 0, 255, 255, 255, 255]);
    // past the last row: a quiet no-op
    let before = buf.clone();
    assert_eq!(s.next_row(&mut buf), DecodingResult::Success);
    assert_eq!(buf, before);

    // rewinding starts the cursor over
    s.reset_decode_state();
    assert_eq!(s.next_row(&mut buf), DecodingResult::Success);
    assert_eq!(buf, vec![255, 0, 0, 0, 255, 0]);
}

#[test]
fn test_bmp_byte_by_byte() {
    let rows = rgb_rows();
    let data = bmp24(2, &rows, false);
    let mut s = BmpSession::new(ByteSource::new());
    let mut fed = 0usize;
    loop {
        let r = s.read_metadata();
        if r == DecodingResult::Success {
            break;
        }
        assert_eq!(r, DecodingResult::IncompleteInput);
        assert!(fed < data.len(), "metadata never completed");
        s.feed(&data[fed..fed + 1]);
        fed += 1;
    }
    loop {
        let r = s.read_image_data();
        if r == DecodingResult::Success {
            break;
        }
        assert_eq!(r, DecodingResult::IncompleteInput);
        assert!(fed < data.len(), "pixels never completed");
        s.feed(&data[fed..fed + 1]);
        fed += 1;
    }
    let pull = s.pull_new_rows();
    assert_eq!(pull.bytes, flat(&rows));
    // identical to the all-at-once decode of the same bytes
    let mut all = BmpSession::new(ByteSource::new());
    all.feed(&data);
    assert_eq!(all.read_metadata(), DecodingResult::Success);
    assert_eq!(all.read_image_data(), DecodingResult::Success);
    assert_eq!(all.pull_new_rows().bytes, pull.bytes);
}
