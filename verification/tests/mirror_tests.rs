use wuwa_downloader::mirror::{
    calculate_total_size, get_filename, mirror_url, normalize_dest, probe_size, probe_url,
    sanitize_url, SizeCache,
};

#[test]
fn backslashes_become_forward_slashes() {
    assert_eq!(normalize_dest("a\\b\\c.bin"), "a/b/c.bin");
    assert_eq!(normalize_dest("plain.bin"), "plain.bin");
    assert_eq!(normalize_dest(""), "");
}

#[test]
fn filename_is_the_last_component() {
    assert_eq!(get_filename("a/b/c.bin"), "c.bin");
    assert_eq!(get_filename("file.bin"), "file.bin");
    assert_eq!(get_filename(""), "");
}

#[test]
fn filename_ignores_trailing_separators() {
    assert_eq!(get_filename("a/b/"), "b");
    assert_eq!(get_filename("a/b///"), "b");
    assert_eq!(get_filename("a//b"), "b");
}

#[test]
fn filename_handles_dot_components_like_a_path() {
    // A final `..` leaves no file-name component: the whole path comes back.
    assert_eq!(get_filename("a/.."), "a/..");
    assert_eq!(get_filename(".."), "..");
    // A trailing `.` component is ignored in favour of what precedes it.
    assert_eq!(get_filename("a/."), "a");
    assert_eq!(get_filename("."), ".");
    assert_eq!(get_filename("/"), "/");
    // Dots inside an ordinary name are just characters.
    assert_eq!(get_filename("a/b..bin"), "b..bin");
    assert_eq!(get_filename("a/..."), "...");
}

#[test]
fn urls_join_base_and_destination() {
    let base = String::from("https://cdn.example/zip/");
    let dest = String::from("a/b.bin");
    assert_eq!(mirror_url(&base, &dest), "https://cdn.example/zip/a/b.bin");
    let bare = String::from("https://cdn.example/zip");
    assert_eq!(probe_url(&bare, &dest), "https://cdn.example/zip/a/b.bin");
}

#[test]
fn sanitize_collapses_doubled_slashes_after_the_scheme() {
    assert_eq!(sanitize_url("https://cdn//zip//a.bin"), "https://cdn/zip/a.bin");
    assert_eq!(sanitize_url("cdn//zip"), "cdn/zip");
    assert_eq!(sanitize_url("https://cdn/zip"), "https://cdn/zip");
}

#[test]
fn first_probe_answer_wins() {
    assert_eq!(probe_size(&vec![None, Some(5), Some(7)]), Some(5));
    assert_eq!(probe_size(&vec![Some(9), None]), Some(9));
    assert_eq!(probe_size(&vec![None, None]), None);
    assert_eq!(probe_size(&Vec::new()), None);
}

#[test]
fn cache_remembers_probed_urls() {
    let mut cache = SizeCache::new();
    let url = String::from("https://cdn/zip/a.bin");
    assert_eq!(cache.get(&url), None);
    cache.insert(url.clone(), 42);
    assert_eq!(cache.get(&url), Some(42));
    let other = String::from("https://cdn/zip/b.bin");
    assert_eq!(cache.get(&other), None);
}

#[test]
fn total_size_sums_known_sizes_and_counts_unknown() {
    let sizes = vec![Some(1), None, Some(2), None, Some(3)];
    let totals = calculate_total_size(&sizes);
    assert_eq!(totals.total_bytes, 6);
    assert_eq!(totals.unknown_files, 2);
}

#[test]
fn total_size_saturates() {
    let sizes = vec![Some(u64::MAX), Some(5)];
    let totals = calculate_total_size(&sizes);
    assert_eq!(totals.total_bytes, u64::MAX);
    assert_eq!(totals.unknown_files, 0);
}
