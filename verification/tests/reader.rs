use preview_playlist::edl::{encode, path_to_edl};
use preview_playlist::entry::VideoEntry;
use preview_playlist::reader::{extract_path, is_digit_byte};

#[test]
fn reads_back_a_plain_path() {
    assert_eq!(extract_path(b"%5%a.mp4"), Some(b"a.mp4".to_vec()));
}

#[test]
fn reads_only_as_many_bytes_as_the_length_says() {
    assert_eq!(extract_path(b"%5%a.mp4,12,10\n"), Some(b"a.mp4".to_vec()));
    assert_eq!(extract_path(b"%0%rest"), Some(Vec::new()));
    assert_eq!(extract_path(b"%007%a,b%c,d"), Some(b"a,b%c,d".to_vec()));
}

#[test]
fn refuses_what_is_no_escaped_path() {
    assert_eq!(extract_path(b""), None);
    assert_eq!(extract_path(b"a.mp4"), None);
    assert_eq!(extract_path(b"%"), None);
    assert_eq!(extract_path(b"%%a.mp4"), None);
    assert_eq!(extract_path(b"%5"), None);
    assert_eq!(extract_path(b"%5a.mp4"), None);
    assert_eq!(extract_path(b"%-5%a.mp4"), None);
}

#[test]
fn refuses_a_path_shorter_than_its_length() {
    assert_eq!(extract_path(b"%6%a.mp4"), None);
    assert_eq!(extract_path(b"%1%"), None);
    assert_eq!(extract_path(b"%99999999999999999999999999999999%a.mp4"), None);
}

#[test]
fn round_trip_of_paths_with_separators() {
    let paths = [
        "a.mp4",
        "",
        "/videos/a,b.mp4",
        "50%,off%.mkv",
        "line\nfeed.avi",
        "%3%abc",
        "é,日本語.mov",
        "0123456789",
    ];
    for path in paths {
        let escaped = path_to_edl(path);
        assert_eq!(extract_path(escaped.as_bytes()), Some(path.as_bytes().to_vec()));
        let line = format!("{},7,10\n", escaped);
        assert_eq!(extract_path(line.as_bytes()), Some(path.as_bytes().to_vec()));
    }
}

#[test]
fn round_trip_through_a_document() {
    let entries = vec![VideoEntry::new("/v/a,b.mp4".to_string(), 40, 30, 10).unwrap()];
    let text = encode(&entries);
    let line = text.lines().nth(1).unwrap();
    assert_eq!(extract_path(line.as_bytes()), Some(b"/v/a,b.mp4".to_vec()));
}

#[test]
fn digits_are_zero_to_nine() {
    assert!(is_digit_byte(b'0'));
    assert!(is_digit_byte(b'9'));
    assert!(!is_digit_byte(b'/'));
    assert!(!is_digit_byte(b':'));
    assert!(!is_digit_byte(b'%'));
}
