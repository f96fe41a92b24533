use std::io::Write;
use wuwa_downloader::encoding::decompress_if_gzipped;

fn gzip_bytes(text: &str) -> Vec<u8> {
    let mut enc = flate2::write::GzEncoder::new(Vec::new(), flate2::Compression::default());
    enc.write_all(text.as_bytes()).unwrap();
    enc.finish().unwrap()
}

#[test]
fn gzip_body_round_trips() {
    let body = gzip_bytes("{\"resource\":[]}");
    let out = decompress_if_gzipped("gzip", &body);
    assert_eq!(out, Ok(String::from("{\"resource\":[]}")));
}

#[test]
fn encoding_value_only_needs_to_mention_gzip() {
    let body = gzip_bytes("hello");
    let out = decompress_if_gzipped("x-gzip", &body);
    assert_eq!(out, Ok(String::from("hello")));
}

#[test]
fn plain_body_is_read_as_text() {
    let body: Vec<u8> = b"plain text".to_vec();
    let out = decompress_if_gzipped("", &body);
    assert_eq!(out, Ok(String::from("plain text")));
    let out = decompress_if_gzipped("identity", &body);
    assert_eq!(out, Ok(String::from("plain text")));
}

#[test]
fn invalid_gzip_stream_is_an_error() {
    let body: Vec<u8> = vec![1, 2, 3, 4];
    assert!(decompress_if_gzipped("gzip", &body).is_err());
}

#[test]
fn gzipped_bytes_stay_compressed_without_the_header() {
    // Without a gzip content encoding the bytes are not inflated.
    let body = gzip_bytes("hello");
    let out = decompress_if_gzipped("", &body).unwrap();
    assert_ne!(out, "hello");
}
