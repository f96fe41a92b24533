use wuwa_downloader::integrity::{
    calculate_md5, check_existing_file, check_size_first, hash_check, should_skip_download,
    to_hex, Md5Stream, QuickCheck,
};

#[test]
fn md5_of_empty_input() {
    let empty: Vec<u8> = Vec::new();
    assert_eq!(calculate_md5(&empty), "d41d8cd98f00b204e9800998ecf8427e");
}

#[test]
fn md5_of_known_vector() {
    let data: Vec<u8> = b"abc".to_vec();
    assert_eq!(calculate_md5(&data), "900150983cd24fb0d6963f7d28e17f72");
}

#[test]
fn md5_differs_for_different_input() {
    let a: Vec<u8> = b"abc".to_vec();
    let b: Vec<u8> = b"abd".to_vec();
    assert_ne!(calculate_md5(&a), calculate_md5(&b));
}

#[test]
fn hex_rendering_is_two_lowercase_digits_per_byte() {
    let data: Vec<u8> = vec![0x00, 0xff, 0x1a, 0x0b];
    assert_eq!(to_hex(&data), "00ff1a0b");
    let nothing: Vec<u8> = Vec::new();
    assert_eq!(to_hex(&nothing), "");
}

#[test]
fn missing_file_never_passes() {
    let md5 = String::from("d41d8cd98f00b204e9800998ecf8427e");
    assert!(!check_existing_file(None, Some(&md5), Some(0)));
    assert!(!check_existing_file(None, None, None));
}

#[test]
fn size_mismatch_fails_without_hash_agreement() {
    let bytes: Vec<u8> = b"abc".to_vec();
    let md5 = calculate_md5(&bytes);
    assert!(!check_existing_file(Some(&bytes), Some(&md5), Some(2)));
}

#[test]
fn hash_mismatch_fails() {
    let bytes: Vec<u8> = b"abc".to_vec();
    let wrong = String::from("00000000000000000000000000000000");
    assert!(!check_existing_file(Some(&bytes), Some(&wrong), Some(3)));
}

#[test]
fn matching_size_and_hash_pass() {
    let bytes: Vec<u8> = b"abc".to_vec();
    let md5 = calculate_md5(&bytes);
    assert!(check_existing_file(Some(&bytes), Some(&md5), Some(3)));
}

#[test]
fn absent_expectations_are_dont_care() {
    let bytes: Vec<u8> = b"abc".to_vec();
    assert!(check_existing_file(Some(&bytes), None, None));
    assert!(check_existing_file(Some(&bytes), None, Some(3)));
    let md5 = calculate_md5(&bytes);
    assert!(check_existing_file(Some(&bytes), Some(&md5), None));
}

#[test]
fn skip_needs_both_expectations() {
    let bytes: Vec<u8> = b"abc".to_vec();
    let md5 = calculate_md5(&bytes);
    assert!(!should_skip_download(Some(&bytes), Some(&md5), None));
    assert!(!should_skip_download(Some(&bytes), None, Some(3)));
    assert!(should_skip_download(Some(&bytes), Some(&md5), Some(3)));
    assert!(!should_skip_download(None, Some(&md5), Some(3)));
}

#[test]
fn zero_byte_file_matches_empty_hash() {
    let empty: Vec<u8> = Vec::new();
    let md5 = String::from("d41d8cd98f00b204e9800998ecf8427e");
    assert!(check_existing_file(Some(&empty), Some(&md5), Some(0)));
    assert!(should_skip_download(Some(&empty), Some(&md5), Some(0)));
}

#[test]
fn md5_is_always_thirty_two_characters() {
    let data: Vec<u8> = b"abc".to_vec();
    assert_eq!(calculate_md5(&data).len(), 32);
    let empty: Vec<u8> = Vec::new();
    assert_eq!(calculate_md5(&empty).len(), 32);
}

#[test]
fn streamed_hash_equals_one_shot_hash() {
    // The chunking must not matter: feeding the content in pieces gives
    // the digest of the whole.
    let whole: Vec<u8> = b"abcdef".to_vec();
    let mut h = Md5Stream::new();
    h.update(b"ab");
    h.update(b"");
    h.update(b"cdef");
    assert_eq!(h.finish(), calculate_md5(&whole));
}

#[test]
fn streamed_hash_of_nothing_is_the_empty_digest() {
    let h = Md5Stream::new();
    assert_eq!(h.finish(), "d41d8cd98f00b204e9800998ecf8427e");
}

#[test]
fn size_first_check_decides_without_content() {
    assert_eq!(check_size_first(false, 0, true, Some(3)), QuickCheck::Invalid);
    assert_eq!(check_size_first(true, 2, true, Some(3)), QuickCheck::Invalid);
    assert_eq!(check_size_first(true, 3, true, Some(3)), QuickCheck::NeedHash);
    assert_eq!(check_size_first(true, 3, false, Some(3)), QuickCheck::Valid);
    assert_eq!(check_size_first(true, 7, true, None), QuickCheck::NeedHash);
    assert_eq!(check_size_first(true, 7, false, None), QuickCheck::Valid);
}

#[test]
fn hash_check_compares_exactly() {
    let a = String::from("d41d8cd98f00b204e9800998ecf8427e");
    let b = String::from("d41d8cd98f00b204e9800998ecf8427e");
    let c = String::from("00000000000000000000000000000000");
    assert!(hash_check(&a, &b));
    assert!(!hash_check(&a, &c));
}
