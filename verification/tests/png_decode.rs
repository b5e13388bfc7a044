//! End-to-end tests of the PNG decode session, against images built byte
//! by byte in this file: signature, chunks with their checksums, and image
//! data in stored (uncompressed) zlib blocks.

use skcodec::png::{ColorType, PngSession};
use skcodec::result::DecodingResult;
use skcodec::source::ByteSource;

fn crc32(data: &[u8]) -> u32 {
    let mut crc: u32 = 0xffff_ffff;
    for &b in data {
        crc ^= b as u32;
        for _ in 0..8 {
            if crc & 1 != 0 {
                crc = (crc >> 1) ^ 0xedb8_8320;
            } else {
                crc >>= 1;
            }
        }
    }
    !crc
}

fn adler32(data: &[u8]) -> u32 {
    let mut a: u32 = 1;
    let mut b: u32 = 0;
    for &x in data {
        a = (a + x as u32) % 65521;
        b = (b + a) % 65521;
    }
    (b << 16) | a
}

fn chunk(name: &[u8; 4], payload: &[u8]) -> Vec<u8> {
    let mut v = Vec::new();
    v.extend_from_slice(&(payload.len() as u32).to_be_bytes());
    v.extend_from_slice(name);
    v.extend_from_slice(payload);
    let mut nd = name.to_vec();
    nd.extend_from_slice(payload);
    v.extend_from_slice(&crc32(&nd).to_be_bytes());
    v
}

fn zlib_store(raw: &[u8]) -> Vec<u8> {
    let mut v = vec![0x78, 0x01];
    let n = raw.len() as u16;
    v.push(0x01); // final block, stored
    v.extend_from_slice(&n.to_le_bytes());
    v.extend_from_slice(&(!n).to_le_bytes());
    v.extend_from_slice(raw);
    v.extend_from_slice(&adler32(raw).to_be_bytes());
    v
}

/// An 8-bit grayscale PNG of the given pixels (top-down, one byte each).
fn gray_png(width: u32, height: u32, interlaced: bool, pixels: &[u8]) -> Vec<u8> {
    assert_eq!(pixels.len(), (width * height) as usize);
    let mut raw = Vec::new();
    if !interlaced {
        for y in 0..height {
            raw.push(0); // filter: none
            raw.extend_from_slice(&pixels[(y * width) as usize..][..width as usize]);
        }
    } else {
        const XS: [u32; 7] = [8, 8, 4, 4, 2, 2, 1];
        const XO: [u32; 7] = [0, 4, 0, 2, 0, 1, 0];
        const YS: [u32; 7] = [8, 8, 8, 4, 4, 2, 2];
        const YO: [u32; 7] = [0, 0, 4, 0, 2, 0, 1];
        for p in 0..7 {
            if width <= XO[p] {
                continue;
            }
            let mut y = YO[p];
            while y < height {
                raw.push(0);
                let mut x = XO[p];
                while x < width {
                    raw.push(pixels[(y * width + x) as usize]);
                    x += XS[p];
                }
                y += YS[p];
            }
        }
    }
    let mut png = vec![137, 80, 78, 71, 13, 10, 26, 10];
    let mut ihdr = Vec::new();
    ihdr.extend_from_slice(&width.to_be_bytes());
    ihdr.extend_from_slice(&height.to_be_bytes());
    ihdr.extend_from_slice(&[8, 0, 0, 0, if interlaced { 1 } else { 0 }]);
    png.extend_from_slice(&chunk(b"IHDR", &ihdr));
    png.extend_from_slice(&chunk(b"IDAT", &zlib_store(&raw)));
    png.extend_from_slice(&chunk(b"IEND", &[]));
    png
}

fn fresh_session() -> PngSession {
    PngSession::new(ByteSource::new())
}

/// Decodes a whole image fed all at once, returning the pixel rows.
fn decode_all_at_once(data: &[u8]) -> (PngSession, Vec<u8>) {
    let mut s = fresh_session();
    s.feed(data);
    assert_eq!(s.read_metadata(), DecodingResult::Success);
    assert_eq!(s.read_image_data(), DecodingResult::Success);
    let pull = s.pull_new_rows();
    assert_eq!(pull.status, DecodingResult::Success);
    assert_eq!(pull.row_start, 0);
    assert_eq!(pull.row_count, s.height());
    (s, pull.bytes)
}

#[test]
fn test_png_metadata_idempotent() {
    let data = gray_png(3, 2, false, &[1, 2, 3, 4, 5, 6]);
    let mut s = fresh_session();
    s.feed(&data);
    assert_eq!(s.read_metadata(), DecodingResult::Success);
    let (w, h, i) = (s.width(), s.height(), s.interlaced());
    // calling again succeeds and changes nothing
    assert_eq!(s.read_metadata(), DecodingResult::Success);
    assert_eq!((s.width(), s.height(), s.interlaced()), (w, h, i));
    assert_eq!((w, h, i), (3, 2, false));
    assert_eq!(s.output_color_type(), ColorType::Grayscale);
    assert_eq!(s.output_bits_per_component(), 8);
    assert_eq!(s.output_row_stride(), 3);
    assert_eq!(s.output_buffer_size(), 6);
}

#[test]
fn test_png_truncated_signature_stays_incomplete() {
    // the 8-byte magic alone is a valid prefix: never a format error
    let magic = [137u8, 80, 78, 71, 13, 10, 26, 10];
    let mut s = fresh_session();
    s.feed(&magic);
    assert_eq!(s.read_metadata(), DecodingResult::IncompleteInput);
    assert_eq!(s.read_metadata(), DecodingResult::IncompleteInput);
    assert_eq!(s.read_metadata(), DecodingResult::IncompleteInput);
}

#[test]
fn test_png_corrupt_signature_is_terminal() {
    let mut s = fresh_session();
    s.feed(&[0x00, 0x01, 0x02, 0x03, 0x04, 0x05, 0x06, 0x07, 0x08]);
    assert_eq!(s.read_metadata(), DecodingResult::FormatError);
    // terminal: every further call reports the same terminal failure
    assert_eq!(s.read_metadata(), DecodingResult::FormatError);
    assert_eq!(s.read_image_data(), DecodingResult::FormatError);
    assert_eq!(s.pull_new_rows().status, DecodingResult::FormatError);
    let row = s.next_interlaced_row();
    assert_eq!(row.status, DecodingResult::FormatError);
    // feeding perfectly good bytes afterwards does not revive the session
    s.feed(&gray_png(1, 1, false, &[7]));
    assert_eq!(s.read_metadata(), DecodingResult::FormatError);
}

#[test]
fn test_png_pixels_before_metadata_is_parameter_error() {
    let mut s = fresh_session();
    assert_eq!(s.read_image_data(), DecodingResult::ParameterError);
    // a caller mistake, not a stream failure: the session still works
    s.feed(&gray_png(1, 1, false, &[9]));
    assert_eq!(s.read_metadata(), DecodingResult::Success);
    assert_eq!(s.read_image_data(), DecodingResult::Success);
}

#[test]
fn test_png_byte_by_byte_matches_all_at_once() {
    // feed one byte at a time; after every incomplete answer feed one more
    // byte; the final pixels must equal the all-at-once decode
    let pixels: Vec<u8> = (0u8..12).collect();
    let data = gray_png(4, 3, false, &pixels);
    let (_, reference) = decode_all_at_once(&data);

    let mut s = fresh_session();
    let mut fed = 0usize;
    loop {
        let r = s.read_metadata();
        if r == DecodingResult::Success {
            break;
        }
        assert_eq!(r, DecodingResult::IncompleteInput);
        assert!(fed < data.len(), "metadata never completed");
        s.feed(&data[fed..fed + 1]);
        fed += 1;
    }
    let mut blocks: Vec<(u32, u32)> = Vec::new();
    let mut collected: Vec<u8> = Vec::new();
    loop {
        let r = s.read_image_data();
        // progress is never lost: completed rows can be collected between
        // attempts, each exactly once
        let pull = s.pull_new_rows();
        assert_eq!(pull.status, DecodingResult::Success);
        if pull.row_count > 0 {
            blocks.push((pull.row_start, pull.row_count));
            collected.extend_from_slice(&pull.bytes);
        }
        if r == DecodingResult::Success {
            break;
        }
        assert_eq!(r, DecodingResult::IncompleteInput);
        assert!(fed < data.len(), "pixels never completed");
        s.feed(&data[fed..fed + 1]);
        fed += 1;
    }
    // blocks never overlap and never skip: they tile 0..height in order
    let mut next = 0u32;
    for &(start, count) in &blocks {
        assert_eq!(start, next);
        next = start + count;
    }
    assert_eq!(next, 3);
    assert_eq!(collected, reference);
    assert_eq!(reference, pixels);
}

#[test]
fn test_png_interlaced_whole_image_matches_plain() {
    // the same 8x8 pixel content, interlaced and not: both whole-image
    // decodes must reconstruct identical pixels
    let pixels: Vec<u8> = (0u8..64).map(|v| v.wrapping_mul(3)).collect();
    let plain = gray_png(8, 8, false, &pixels);
    let woven = gray_png(8, 8, true, &pixels);

    let (ps, plain_pixels) = decode_all_at_once(&plain);
    assert!(!ps.interlaced());
    assert_eq!(plain_pixels, pixels);

    let mut s = fresh_session();
    s.feed(&woven);
    assert_eq!(s.read_metadata(), DecodingResult::Success);
    assert!(s.interlaced());
    // an interlaced image has no complete rows until every pass is in
    let early = s.pull_new_rows();
    assert_eq!((early.status, early.row_count), (DecodingResult::Success, 0));
    assert_eq!(s.read_image_data(), DecodingResult::Success);
    let pull = s.pull_new_rows();
    assert_eq!((pull.row_start, pull.row_count), (0, 8));
    assert_eq!(pull.bytes, pixels);
}

#[test]
fn test_png_interlaced_row_by_row_expansion() {
    // drive the interlaced decode pass row by pass row, expanding each
    // sparse row into a caller-owned buffer; the result must match the
    // whole-image decode of the same bytes
    let pixels: Vec<u8> = (0u8..64).collect();
    let woven = gray_png(8, 8, true, &pixels);

    let mut s = fresh_session();
    s.feed(&woven);
    assert_eq!(s.read_metadata(), DecodingResult::Success);
    let stride = s.output_row_stride();
    let mut img = vec![0u8; stride * s.height() as usize];
    let mut rows = 0;
    loop {
        let row = s.next_interlaced_row();
        if row.status == DecodingResult::EndOfFrame {
            break;
        }
        assert_eq!(row.status, DecodingResult::Success);
        s.expand_last_interlaced_row(&mut img, stride, &row.data, 8);
        rows += 1;
    }
    // 8x8 has 15 pass rows: 1+1+1+2+2+4+4
    assert_eq!(rows, 15);
    assert_eq!(img, pixels);
    // and the end of the frame stays the end of the frame
    assert_eq!(s.next_interlaced_row().status, DecodingResult::EndOfFrame);
}

#[test]
fn test_png_interlaced_row_by_row_incremental() {
    // the row-by-row path also survives starvation: bytes arrive a few at
    // a time, and rows already handed out are never re-yielded
    let pixels: Vec<u8> = (0u8..64).map(|v| 255 - v).collect();
    let woven = gray_png(8, 8, true, &pixels);

    let mut s = fresh_session();
    let mut fed = 0usize;
    loop {
        let r = s.read_metadata();
        if r == DecodingResult::Success {
            break;
        }
        assert_eq!(r, DecodingResult::IncompleteInput);
        s.feed(&woven[fed..fed + 1]);
        fed += 1;
    }
    let stride = s.output_row_stride();
    let mut img = vec![0u8; stride * 8];
    let mut rows = 0;
    loop {
        let row = s.next_interlaced_row();
        match row.status {
            DecodingResult::EndOfFrame => break,
            DecodingResult::Success => {
                s.expand_last_interlaced_row(&mut img, stride, &row.data, 8);
                rows += 1;
            }
            DecodingResult::IncompleteInput => {
                assert!(fed < woven.len(), "rows never completed");
                s.feed(&woven[fed..fed + 1]);
                fed += 1;
            }
            other => panic!("unexpected status {:?}", other),
        }
    }
    assert_eq!(rows, 15);
    assert_eq!(img, pixels);
}

#[test]
fn test_png_mixing_drive_modes_is_parameter_error() {
    let data = gray_png(2, 2, false, &[1, 2, 3, 4]);
    let mut s = fresh_session();
    s.feed(&data);
    assert_eq!(s.read_metadata(), DecodingResult::Success);
    assert_eq!(s.read_image_data(), DecodingResult::Success);
    // the session is driven whole-image; row-at-a-time is refused
    assert_eq!(s.next_interlaced_row().status, DecodingResult::ParameterError);
    // and the refusal did not poison anything
    assert_eq!(s.read_image_data(), DecodingResult::Success);
}
