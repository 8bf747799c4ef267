use youterm::command::{resolve_command, Command, CommandError};
use youterm::download::find_downloaded_file;
use youterm::text::{contains_str, join};

#[test]
fn play_uses_cache_and_canonical_url() {
    let r = resolve_command(Command::Play { query: "HTTPS://Example.TEST/video-a".to_string() }).unwrap();
    assert_eq!(r.url, "https://example.test/video-a");
    assert!(r.use_cache);
}

#[test]
fn test_command_plays_known_video() {
    let r = resolve_command(Command::Test { no_cache: true }).unwrap();
    assert_eq!(r.url, "https://www.youtube.com/watch?v=dQw4w9WgXcQ");
    assert!(!r.use_cache);
    assert!(resolve_command(Command::Test { no_cache: false }).unwrap().use_cache);
}

#[test]
fn bad_url_is_refused() {
    assert!(matches!(
        resolve_command(Command::Play { query: "not a url".to_string() }),
        Err(CommandError::BadUrl)
    ));
}

#[test]
fn downloaded_file_found_by_title() {
    let entries = vec![
        "My Song.webm".to_string(),
        "notes.txt".to_string(),
        "My Song [abc].mp4".to_string(),
        "My Song [def].mp4".to_string(),
    ];
    assert_eq!(find_downloaded_file(&entries, "My Song"), Some("My Song [abc].mp4".to_string()));
    assert_eq!(find_downloaded_file(&entries, "Other"), None);
    assert_eq!(find_downloaded_file(&Vec::new(), "My Song"), None);
}

#[test]
fn substring_and_join() {
    assert!(contains_str("abcmp4", "mp4"));
    assert!(contains_str("abc", ""));
    assert!(!contains_str("mp", "mp4"));
    assert!(!contains_str("abc", "abd"));
    assert_eq!(join("out", "a.mp4"), "out/a.mp4");
    assert_eq!(join("out/", "a.mp4"), "out/a.mp4");
    assert_eq!(join("", "a.mp4"), "/a.mp4");
}
