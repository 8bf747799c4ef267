use youterm::cache_manager::{CacheManager, CacheRecord};
use youterm::workspace::{get_bin_dir, get_cache_path, get_out_dir, get_working_dir};

fn record(url: &str, name: &str) -> CacheRecord {
    CacheRecord { url: url.to_string(), name: name.to_string() }
}

#[test]
fn lookup_after_insert_gives_path_in_out_dir() {
    let mut cache = CacheManager::initialize(&Vec::new());
    cache.add_record("https://example.test/video-a", "a.mp4".to_string());
    assert_eq!(
        cache.get_video_path("/data/youterm/out", "https://example.test/video-a"),
        Some("/data/youterm/out/a.mp4".to_string())
    );
}

#[test]
fn contains_false_before_insert_true_after() {
    let mut cache = CacheManager::initialize(&Vec::new());
    assert!(!cache.contains("https://example.test/video-a"));
    cache.add_record("https://example.test/video-b", "b.mp4".to_string());
    assert!(!cache.contains("https://example.test/video-a"));
    cache.add_record("https://example.test/video-a", "a.mp4".to_string());
    assert!(cache.contains("https://example.test/video-a"));
}

#[test]
fn reinsert_overwrites_without_duplicates() {
    let mut cache = CacheManager::initialize(&Vec::new());
    cache.add_record("https://example.test/video-a", "a.mp4".to_string());
    cache.add_record("https://example.test/video-a", "a2.mp4".to_string());
    assert_eq!(cache.records().len(), 1);
    assert_eq!(cache.records()[0].name, "a2.mp4");
    assert_eq!(
        cache.get_video_path("/out", "https://example.test/video-a"),
        Some("/out/a2.mp4".to_string())
    );
}

#[test]
fn lookup_without_record_is_none() {
    let cache = CacheManager::initialize(&Vec::new());
    assert_eq!(cache.get_video_path("/out", "https://example.test/video-a"), None);
}

#[test]
fn initialize_keeps_last_record_per_url() {
    let stored = vec![
        record("https://example.test/x", "x1.mp4"),
        record("https://example.test/y", "y.mp4"),
        record("https://example.test/x", "x2.mp4"),
    ];
    let cache = CacheManager::initialize(&stored);
    assert_eq!(cache.records().len(), 2);
    assert_eq!(cache.get_video_path("d", "https://example.test/x"), Some("d/x2.mp4".to_string()));
    assert_eq!(cache.get_video_path("d", "https://example.test/y"), Some("d/y.mp4".to_string()));
}

#[test]
fn miss_fetch_insert_then_hit() {
    let mut cache = CacheManager::initialize(&Vec::new());
    let url = "https://example.test/video-a";
    let mut fetches = 0;
    if cache.needs_fetch(url, true) {
        fetches += 1;
        cache.add_record(url, "a.mp4".to_string());
    }
    assert_eq!(fetches, 1);
    assert!(cache.contains(url));
    assert_eq!(cache.get_video_path("<output_dir>", url), Some("<output_dir>/a.mp4".to_string()));
}

#[test]
fn second_request_performs_no_fetch() {
    let mut cache = CacheManager::initialize(&Vec::new());
    let url = "https://example.test/video-a";
    let mut fetches = 0;
    for _ in 0..2 {
        if cache.needs_fetch(url, true) {
            fetches += 1;
            cache.add_record(url, "a.mp4".to_string());
        }
    }
    assert_eq!(fetches, 1);
    assert!(cache.needs_fetch(url, false));
}

#[test]
fn directories_under_data_dir() {
    assert_eq!(get_working_dir("/home/u/.local/share"), "/home/u/.local/share/youterm");
    assert_eq!(get_bin_dir("/d"), "/d/youterm/bin");
    assert_eq!(get_out_dir("/d"), "/d/youterm/out");
    assert_eq!(get_cache_path("/d"), "/d/youterm/cache.json");
}

#[test]
fn stored_records_reload_to_same_table() {
    let mut cache = CacheManager::initialize(&Vec::new());
    cache.add_record("https://example.test/a", "a.mp4".to_string());
    cache.add_record("https://example.test/b", "b.mp4".to_string());
    cache.add_record("https://example.test/a", "a3.mp4".to_string());
    let stored: Vec<CacheRecord> = cache
        .records()
        .iter()
        .map(|r| record(&r.url, &r.name))
        .collect();
    let reloaded = CacheManager::initialize(&stored);
    assert_eq!(reloaded.records().len(), 2);
    assert_eq!(reloaded.get_video_path("o", "https://example.test/a"), Some("o/a3.mp4".to_string()));
    assert_eq!(reloaded.get_video_path("o", "https://example.test/b"), Some("o/b.mp4".to_string()));
}
