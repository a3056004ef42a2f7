use ytdl::error::YtdlError;
use ytdl::utils::{format_bytes, format_duration, validate_youtube_url};

#[test]
fn test_validate_youtube_url() {
    assert!(validate_youtube_url("https://youtube.com/watch?v=dQw4w9WgXcQ").is_ok());
    assert!(validate_youtube_url("https://www.youtube.com/watch?v=dQw4w9WgXcQ").is_ok());
    assert!(validate_youtube_url("https://youtu.be/dQw4w9WgXcQ").is_ok());
    assert!(validate_youtube_url(
        "https://youtube.com/playlist?list=PLrAXtmErZgOeiKm4sgNOknGvNjby9efdf"
    )
    .is_ok());
    assert!(validate_youtube_url("https://youtube.com/shorts/abc123def").is_ok());
    assert!(validate_youtube_url("https://example.com/video").is_err());
    assert!(validate_youtube_url("not a url").is_err());
}

#[test]
fn test_validate_youtube_urls() {
    let valid_urls = vec![
        "https://www.youtube.com/watch?v=dQw4w9WgXcQ",
        "https://youtu.be/dQw4w9WgXcQ",
        "https://www.youtube.com/watch?v=dQw4w9WgXcQ&list=PLxxx",
    ];
    let invalid_urls = vec!["https://google.com", "not-a-url", "https://vimeo.com/123456"];

    assert!(valid_urls.iter().all(|u| validate_youtube_url(u).is_ok()));
    assert!(invalid_urls.iter().all(|u| validate_youtube_url(u).is_err()));
}

#[test]
fn rejection_carries_the_invalid_url_error() {
    match validate_youtube_url("ftp://youtube.com/watch?v=x") {
        Err(YtdlError::InvalidUrl(m)) => assert!(m.ends_with("Got: ftp://youtube.com/watch?v=x")),
        other => panic!("expected an invalid-url error, got {:?}", other),
    }
    // An empty identifier is rejected too.
    assert!(validate_youtube_url("https://youtube.com/watch?v=").is_err());
}

#[test]
fn utils_test_format_bytes() {
    assert_eq!(format_bytes(0), "0.00 B");
    assert_eq!(format_bytes(1024), "1.00 KB");
    assert_eq!(format_bytes(1_048_576), "1.00 MB");
    assert_eq!(format_bytes(1_073_741_824), "1.00 GB");
}

#[test]
fn format_bytes_rounds_to_hundredths() {
    assert_eq!(format_bytes(1536), "1.50 KB");
    assert_eq!(format_bytes(1023), "1023.00 B");
    assert_eq!(format_bytes(1_099_511_627_776), "1.00 TB");
}

#[test]
fn test_format_duration() {
    assert_eq!(format_duration(0), "00:00");
    assert_eq!(format_duration(65), "01:05");
    assert_eq!(format_duration(3661), "01:01:01");
}

#[test]
fn error_kind_names() {
    assert_eq!(YtdlError::YtdlpNotFound.kind_name(), "tool not found");
    assert_eq!(YtdlError::Interrupted.kind_name(), "interrupted");
    let e = YtdlError::Config("bad".to_string());
    assert_eq!(e.kind_name(), "configuration error");
    assert_eq!(e.detail().map(|s| s.as_str()), Some("bad"));
    assert_eq!(YtdlError::FfmpegNotFound.detail(), None);
}
