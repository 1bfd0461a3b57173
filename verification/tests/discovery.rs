use preview_playlist::config::RunConfiguration;
use preview_playlist::discovery::is_video_extension;

#[test]
fn video_extensions_are_accepted() {
    for extension in ["mp4", "mkv", "avi", "mov"] {
        assert!(is_video_extension(extension));
    }
}

#[test]
fn other_extensions_are_refused() {
    for extension in ["", "txt", "mp3", "mp", "mp44", "webm", "m", " mp4", "mp4 "] {
        assert!(!is_video_extension(extension));
    }
}

#[test]
fn extension_match_is_case_sensitive() {
    for extension in ["MP4", "Mkv", "aVi", "MOV"] {
        assert!(!is_video_extension(extension));
    }
}

#[test]
fn configuration_keeps_directory_and_clip_length() {
    let configuration = RunConfiguration::new("/videos".to_string(), 10).unwrap();
    assert_eq!(configuration.directory(), "/videos");
    assert_eq!(configuration.clip_length_seconds(), 10);
}

#[test]
fn configuration_refuses_a_clip_length_of_zero() {
    assert!(RunConfiguration::new("/videos".to_string(), 0).is_none());
    assert!(RunConfiguration::new("/videos".to_string(), 1).is_some());
    assert!(RunConfiguration::new(String::new(), u64::MAX).is_some());
}
