use aicheck::detector::filename::{detect, detect_elevenlabs_pattern, detect_file_name, file_name};
use aicheck::detector::{Confidence, SignalSource};

#[test]
fn test_elevenlabs_filename() {
    let signals = detect("/tmp/ElevenLabs_2026-03-11T04_15_43_Liam - Energetic.mp3");
    assert_eq!(signals.len(), 1);
    assert_eq!(signals[0].tool, Some("elevenlabs".to_string()));
    assert_eq!(signals[0].confidence, Confidence::Low);
}

#[test]
fn test_soundraw_filename() {
    let signals = detect("/tmp/soundraw_track_001.mp3");
    assert_eq!(signals.len(), 1);
    assert_eq!(signals[0].tool, Some("soundraw".to_string()));
}

#[test]
fn test_normal_filename_no_match() {
    let signals = detect("/tmp/my_song.mp3");
    assert!(signals.is_empty());
}

#[test]
fn test_midjourney_filename() {
    let signals = detect("/tmp/midjourney_v6_abc123.png");
    assert_eq!(signals.len(), 1);
    assert_eq!(signals[0].tool, Some("midjourney".to_string()));
}

#[test]
fn test_elevenlabs_pattern_detection() {
    assert!(detect_elevenlabs_pattern("elevenlabs_2026-03-11t04_15_43_something"));
    assert!(!detect_elevenlabs_pattern("elevenlabs_short"));
    assert!(!detect_elevenlabs_pattern("something_else"));
}

#[test]
fn filename_signal_details_and_description() {
    let signals = detect("/tmp/Suno_Song.mp3");
    assert_eq!(signals.len(), 1);
    assert_eq!(signals[0].source, SignalSource::Filename);
    assert_eq!(signals[0].description, "Filename matches AI tool pattern: suno_");
    assert_eq!(signals[0].details, vec![("filename".to_string(), "Suno_Song.mp3".to_string())]);
}

#[test]
fn filename_first_pattern_wins() {
    // Both "dalle" and "midjourney" occur; the earlier table entry wins.
    let signals = detect_file_name("dalle_midjourney.png");
    assert_eq!(signals.len(), 1);
    assert_eq!(signals[0].tool, Some("dall-e".to_string()));
}

#[test]
fn filename_uppercase_is_lowercased() {
    let signals = detect_file_name("COMFYUI_00001_.png");
    assert_eq!(signals.len(), 1);
    assert_eq!(signals[0].tool, Some("comfyui".to_string()));
}

#[test]
fn elevenlabs_pattern_wrong_separator() {
    assert!(!detect_elevenlabs_pattern("elevenlabs_2026/03-11t04_15_43_x"));
    // exactly 20 bytes after the prefix is enough
    assert!(detect_elevenlabs_pattern("elevenlabs_2024-01-01t00_00_00_"));
}

#[test]
fn file_name_of_paths() {
    assert_eq!(file_name("/tmp/a.mp3"), Some("a.mp3".to_string()));
    assert_eq!(file_name("dir/sub/"), Some("sub".to_string()));
    assert_eq!(file_name("dir/."), Some("dir".to_string()));
    assert_eq!(file_name("dir/.."), None);
    assert_eq!(file_name("/"), None);
    assert_eq!(file_name(""), None);
    assert_eq!(file_name("plain"), Some("plain".to_string()));
}

#[test]
fn path_without_file_name_has_no_signal() {
    assert!(detect("/tmp/midjourney/..").is_empty());
}
