use tvconvert::metadata::{metadata, FileStats};

#[test]
fn metadata_of_a_readable_file() {
    let stats = FileStats { len: 1234, created: Some(1_700_000_000), modified: None };
    let m = metadata("/videos/clip.mp4", Some(stats));
    assert_eq!(m.name, Some("clip.mp4".to_string()));
    assert_eq!(m.mimes, vec!["video/mp4".to_string()]);
    assert_eq!(m.len, Some(1234));
    assert_eq!(m.created, Some(1_700_000_000));
    assert_eq!(m.modified, None);
}

#[test]
fn metadata_of_an_unreadable_file() {
    let m = metadata("/videos/movie.avi", None);
    assert_eq!(m.name, Some("movie.avi".to_string()));
    assert_eq!(m.mimes, vec!["video/x-msvideo".to_string()]);
    assert_eq!(m.len, None);
    assert_eq!(m.created, None);
    assert_eq!(m.modified, None);
}

#[test]
fn metadata_mime_guess_is_case_insensitive_and_may_be_empty() {
    assert_eq!(metadata("CLIP.MKV", None).mimes, vec!["video/x-matroska".to_string()]);
    assert!(metadata("/videos/file.zzzz", None).mimes.is_empty());
    assert!(metadata("/videos/noext", None).mimes.is_empty());
    assert!(metadata("/videos/file.", None).mimes.is_empty());
    assert!(metadata("/videos/.mp4", None).mimes.is_empty());
}

#[test]
fn metadata_without_file_name() {
    let m = metadata("/", None);
    assert_eq!(m.name, None);
}
