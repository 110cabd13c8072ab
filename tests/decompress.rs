use std::io::Write;

use flate2::write::{DeflateEncoder, GzEncoder, ZlibEncoder};
use flate2::Compression;
use zlib_region::{
    decompress_region_polling, detect_format, validate_region, zlib_available_p, zlib_decompress_region, ChangeEvent, Format,
    Inflater, RegionError, TextContainer, CHUNK_SIZE,
};

fn zlib(data: &[u8]) -> Vec<u8> {
    let mut e = ZlibEncoder::new(Vec::new(), Compression::default());
    e.write_all(data).unwrap();
    e.finish().unwrap()
}

fn gzip(data: &[u8]) -> Vec<u8> {
    let mut e = GzEncoder::new(Vec::new(), Compression::default());
    e.write_all(data).unwrap();
    e.finish().unwrap()
}

fn deflate(data: &[u8]) -> Vec<u8> {
    let mut e = DeflateEncoder::new(Vec::new(), Compression::default());
    e.write_all(data).unwrap();
    e.finish().unwrap()
}

/// Bytes that compress poorly, so that both sides span several chunks.
fn noisy(len: usize) -> Vec<u8> {
    let mut v = Vec::with_capacity(len);
    let mut x: u32 = 0x1234_5678;
    for _ in 0..len {
        x ^= x << 13;
        x ^= x >> 17;
        x ^= x << 5;
        v.push((x >> 24) as u8);
    }
    v
}

fn framed(prefix: &[u8], body: &[u8], suffix: &[u8]) -> Vec<u8> {
    let mut v = prefix.to_vec();
    v.extend_from_slice(body);
    v.extend_from_slice(suffix);
    v
}

#[test]
fn hello_world_zlib_region_is_replaced() {
    let compressed = zlib(b"hello world");
    let n = compressed.len();
    let mut buf = TextContainer::new(compressed);
    assert_eq!(zlib_decompress_region(&mut buf, 0, n), Ok(true));
    assert_eq!(buf.text(), b"hello world");
    assert_eq!(buf.point(), 11);
    assert_eq!(
        buf.events(),
        &[
            ChangeEvent::BeforeChange { start: 0, end: n },
            ChangeEvent::AfterChange { start: 0, deleted: n, inserted: 11 },
            ChangeEvent::Refresh { start: 0, end: 0 },
        ]
    );
}

#[test]
fn truncated_gzip_region_is_left_alone() {
    let full = gzip(b"hello world");
    let truncated = full[..5].to_vec();
    let mut buf = TextContainer::new(truncated.clone());
    buf.set_point(2);
    assert_eq!(zlib_decompress_region(&mut buf, 0, 5), Ok(false));
    assert_eq!(buf.text(), &truncated[..]);
    assert_eq!(buf.point(), 2);
    assert_eq!(
        buf.events(),
        &[
            ChangeEvent::BeforeChange { start: 0, end: 5 },
            ChangeEvent::Refresh { start: 5, end: 5 },
            ChangeEvent::AfterChange { start: 0, deleted: 5, inserted: 5 },
        ]
    );
}

#[test]
fn zlib_round_trip_inside_text() {
    let data = noisy(50_000);
    let c = zlib(&data);
    let mut buf = TextContainer::new(framed(b"head:", &c, b":tail"));
    assert_eq!(zlib_decompress_region(&mut buf, 5, 5 + c.len()), Ok(true));
    assert_eq!(buf.text(), &framed(b"head:", &data, b":tail")[..]);
    assert_eq!(buf.point(), 5 + data.len());
}

#[test]
fn gzip_round_trip_over_several_chunks() {
    let data = noisy(3 * CHUNK_SIZE + 17);
    let c = gzip(&data);
    let mut buf = TextContainer::new(framed(b"x", &c, b"yz"));
    assert_eq!(zlib_decompress_region(&mut buf, 1 + c.len(), 1), Ok(true));
    assert_eq!(buf.text(), &framed(b"x", &data, b"yz")[..]);
}

#[test]
fn raw_deflate_round_trip() {
    let data = b"abcabcabcabcabc raw deflate data".to_vec();
    let c = deflate(&data);
    assert!(c[0] != 0x78 && c[0] != 0x1f);
    let n = c.len();
    let mut buf = TextContainer::new(c);
    assert_eq!(zlib_decompress_region(&mut buf, 0, n), Ok(true));
    assert_eq!(buf.text(), &data[..]);
}

#[test]
fn round_trip_of_empty_input() {
    let c = zlib(b"");
    let n = c.len();
    let mut buf = TextContainer::new(framed(b"ab", &c, b""));
    assert_eq!(zlib_decompress_region(&mut buf, 2, 2 + n), Ok(true));
    assert_eq!(buf.text(), b"ab");
    assert_eq!(buf.events()[1], ChangeEvent::AfterChange { start: 2, deleted: n, inserted: 0 });
}

#[test]
fn empty_region_fails_without_change() {
    let mut buf = TextContainer::new(b"some text".to_vec());
    buf.set_point(4);
    assert_eq!(zlib_decompress_region(&mut buf, 3, 3), Ok(false));
    assert_eq!(buf.text(), b"some text");
    assert_eq!(buf.point(), 4);
    assert!(buf.events().is_empty());
}

#[test]
fn corruption_after_output_rolls_back() {
    let data = noisy(4 * CHUNK_SIZE);
    let mut c = zlib(&data);
    let k = c.len() - 2;
    c[k] ^= 0xff;
    let before = framed(b"<<", &c, b">>");
    let mut buf = TextContainer::new(before.clone());
    let end = before.len() - 2;
    buf.set_point(end + 1);
    assert_eq!(zlib_decompress_region(&mut buf, 2, end), Ok(false));
    assert_eq!(buf.text(), &before[..]);
    assert_eq!(buf.point(), end + 1);
    assert_eq!(buf.events().len(), 3);
    assert_eq!(
        buf.events()[2],
        ChangeEvent::AfterChange { start: 2, deleted: end - 2, inserted: end - 2 }
    );
}

#[test]
fn truncated_zlib_rolls_back() {
    let data = noisy(2 * CHUNK_SIZE);
    let c = zlib(&data);
    let cut = c[..c.len() - 10].to_vec();
    let mut buf = TextContainer::new(cut.clone());
    assert_eq!(zlib_decompress_region(&mut buf, 0, cut.len()), Ok(false));
    assert_eq!(buf.text(), &cut[..]);
    assert_eq!(buf.point(), 0);
}

#[test]
fn bad_gzip_checksum_fails() {
    let mut c = gzip(b"checksummed");
    let k = c.len() - 6;
    c[k] ^= 0x01;
    let n = c.len();
    let mut buf = TextContainer::new(c.clone());
    assert_eq!(zlib_decompress_region(&mut buf, 0, n), Ok(false));
    assert_eq!(buf.text(), &c[..]);
}

#[test]
fn region_out_of_range_is_an_error() {
    let mut buf = TextContainer::new(b"abc".to_vec());
    assert_eq!(zlib_decompress_region(&mut buf, 1, 4), Err(RegionError::OutOfRange));
    assert_eq!(buf.text(), b"abc");
    assert!(buf.events().is_empty());
}

#[test]
fn multibyte_container_is_an_error() {
    let c = zlib(b"hello world");
    let n = c.len();
    let mut buf = TextContainer::new_multibyte(c.clone());
    assert_eq!(zlib_decompress_region(&mut buf, 0, n), Err(RegionError::Multibyte));
    assert_eq!(buf.text(), &c[..]);
    assert!(buf.events().is_empty());
}

#[test]
fn format_is_chosen_by_first_byte() {
    assert_eq!(detect_format(0x78), Format::Zlib);
    assert_eq!(detect_format(0x1f), Format::Gzip);
    assert_eq!(detect_format(0x00), Format::RawDeflate);
    assert_eq!(detect_format(0x8b), Format::RawDeflate);
}

#[test]
fn validate_region_orders_and_checks_bounds() {
    let buf = TextContainer::new(b"abcdef".to_vec());
    assert_eq!(validate_region(&buf, 4, 1), Ok((1, 4)));
    assert_eq!(validate_region(&buf, 0, 6), Ok((0, 6)));
    assert_eq!(validate_region(&buf, 7, 2), Err(RegionError::OutOfRange));
}

#[test]
fn decompression_is_available() {
    assert!(zlib_available_p());
}

#[test]
fn inflater_hands_out_decoded_bytes() {
    let c = zlib(b"chunked");
    let mut d = Inflater::new(Format::Zlib, &c);
    let mut buf = [0u8; 4];
    let mut out = Vec::new();
    loop {
        let n = d.read_chunk(&mut buf).unwrap();
        if n == 0 {
            break;
        }
        out.extend_from_slice(&buf[..n]);
    }
    assert_eq!(out, b"chunked");
}

#[test]
fn inflater_reports_bad_stream() {
    let data = [0x78u8, 0x00, 0x01, 0x02];
    let mut d = Inflater::new(Format::Zlib, &data);
    let mut buf = [0u8; 16];
    assert!(d.read_chunk(&mut buf).is_err());
}

#[test]
fn container_edits_move_the_cursor() {
    let mut buf = TextContainer::new(b"abcdef".to_vec());
    buf.set_point(2);
    buf.insert_at_point(b"XYZ", 2);
    assert_eq!(buf.text(), b"abXYcdef");
    assert_eq!(buf.point(), 4);
    buf.delete_range(1, 3);
    assert_eq!(buf.text(), b"aYcdef");
    assert_eq!(buf.point(), 2);
    assert_eq!(buf.len(), 6);
    assert!(!buf.is_multibyte());
}

#[test]
fn quit_request_rolls_back() {
    let data = noisy(3 * CHUNK_SIZE);
    let c = zlib(&data);
    let before = framed(b"ab", &c, b"cd");
    let end = 2 + c.len();
    let mut buf = TextContainer::new(before.clone());
    buf.set_point(1);
    let polls = std::cell::Cell::new(0usize);
    let r = decompress_region_polling(&mut buf, 2, end, || {
        polls.set(polls.get() + 1);
        polls.get() == 2
    });
    assert_eq!(r, Err(RegionError::Quit));
    assert_eq!(polls.get(), 2);
    assert_eq!(buf.text(), &before[..]);
    assert_eq!(buf.point(), 1);
    assert_eq!(
        buf.events(),
        &[
            ChangeEvent::BeforeChange { start: 2, end },
            ChangeEvent::Refresh { start: end, end },
            ChangeEvent::AfterChange { start: 2, deleted: end - 2, inserted: end - 2 },
        ]
    );
}

#[test]
fn polling_without_quit_completes() {
    let data = noisy(2 * CHUNK_SIZE + 5);
    let c = gzip(&data);
    let n = c.len();
    let mut buf = TextContainer::new(c);
    let polls = std::cell::Cell::new(0usize);
    let r = decompress_region_polling(&mut buf, 0, n, || {
        polls.set(polls.get() + 1);
        false
    });
    assert_eq!(r, Ok(true));
    assert!(polls.get() >= 3);
    assert_eq!(buf.text(), &data[..]);
}
