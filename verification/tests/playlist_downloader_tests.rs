use ytdl::downloader::{
    build_format_options, interpret_exit, parse_video_metadata, resolution_height,
    select_newest_artifact, find_partial_download, format_view_count, Downloader, FileStamp,
};
use ytdl::error::YtdlError;
use ytdl::playlist::{extract_playlist_id, PlaylistDownloader};

#[test]
fn test_is_playlist_url() {
    assert!(PlaylistDownloader::is_playlist_url("https://youtube.com/playlist?list=PLtest"));
    assert!(PlaylistDownloader::is_playlist_url("https://youtube.com/watch?v=test&list=PLtest"));
    assert!(!PlaylistDownloader::is_playlist_url("https://youtube.com/watch?v=test"));
}

#[test]
fn test_extract_playlist_id() {
    let id = extract_playlist_id("https://youtube.com/playlist?list=PLtest123");
    assert_eq!(id, Some("PLtest123".to_string()));

    let id = extract_playlist_id("https://youtube.com/watch?v=abc&list=PLtest456");
    assert_eq!(id, Some("PLtest456".to_string()));

    let id = extract_playlist_id("https://youtube.com/watch?v=abc");
    assert_eq!(id, None);
}

#[test]
fn playlist_dump_is_read_line_by_line() {
    let lines = vec![
        "{\"playlist_title\":\"Mix\",\"playlist_id\":\"PL1\",\"uploader\":\"Someone\",\"url\":\"https://youtu.be/a\",\"title\":\"First\",\"duration\":60}".to_string(),
        "not json".to_string(),
        "{\"id\":\"bbb\",\"title\":\"Second\"}".to_string(),
    ];
    let info = PlaylistDownloader::parse_playlist_dump(&lines).unwrap();
    assert_eq!(info.title, "Mix");
    assert_eq!(info.id, "PL1");
    assert_eq!(info.uploader.as_deref(), Some("Someone"));
    assert_eq!(info.video_count, 2);
    assert_eq!(info.videos[0].url, "https://youtu.be/a");
    assert_eq!(info.videos[0].duration, Some(60));
    assert_eq!(info.videos[1].url, "https://www.youtube.com/watch?v=bbb");
    assert_eq!(info.videos[1].title, "Second");
    assert!(info.videos.iter().all(|v| v.selected));
}

#[test]
fn empty_playlist_dump_fails() {
    let lines = vec!["not json".to_string(), "{}".to_string()];
    match PlaylistDownloader::parse_playlist_dump(&lines) {
        Err(YtdlError::Other(m)) => assert_eq!(m, "No videos found in playlist"),
        other => panic!("expected the no-videos error, got {:?}", other),
    }
}

#[test]
fn range_selection_keeps_the_window() {
    let lines = vec![
        "{\"url\":\"https://youtu.be/a\",\"title\":\"A\"}".to_string(),
        "{\"url\":\"https://youtu.be/b\",\"title\":\"B\"}".to_string(),
        "{\"url\":\"https://youtu.be/c\",\"title\":\"C\"}".to_string(),
    ];
    let mut info = PlaylistDownloader::parse_playlist_dump(&lines).unwrap();
    PlaylistDownloader::select_range(&mut info, 2, 3);
    let selected: Vec<&str> =
        info.videos.iter().filter(|v| v.selected).map(|v| v.title.as_str()).collect();
    assert_eq!(selected, vec!["B", "C"]);
    assert_eq!(PlaylistDownloader::selected_count(&info), 2);
}

#[test]
fn download_args_for_video_quality() {
    let d = Downloader::new("./downloads".to_string(), "720".to_string());
    let args = d.build_download_args("https://youtu.be/x", false, false);
    assert_eq!(
        args,
        vec![
            "-o",
            "./downloads/%(title)s.%(ext)s",
            "--progress",
            "--newline",
            "-f",
            "bestvideo[height<=720]+bestaudio/best",
            "https://youtu.be/x",
        ]
    );
}

#[test]
fn download_args_for_audio_resume() {
    let d = Downloader::new("/media".to_string(), "best".to_string());
    let args = d.build_download_args("https://youtu.be/x", true, true);
    assert_eq!(
        args,
        vec![
            "-o",
            "/media/%(title)s.%(ext)s",
            "--progress",
            "--newline",
            "--continue",
            "-x",
            "--audio-format",
            "mp3",
            "https://youtu.be/x",
        ]
    );
}

#[test]
fn download_args_best_quality() {
    let d = Downloader::new(".".to_string(), "best".to_string());
    let args = d.build_download_args("u", false, false);
    assert!(args.contains(&"bestvideo+bestaudio/best".to_string()));
}

#[test]
fn exit_interpretation() {
    assert!(interpret_exit(true, Some(0)).is_ok());
    match interpret_exit(false, Some(1)) {
        Err(YtdlError::YtdlpFailed(m)) => assert_eq!(m, "yt-dlp exited with code 1"),
        other => panic!("expected a tool failure, got {:?}", other),
    }
    match interpret_exit(false, None) {
        Err(YtdlError::YtdlpFailed(m)) => assert_eq!(m, "yt-dlp exited with code -1"),
        other => panic!("expected a tool failure, got {:?}", other),
    }
}

#[test]
fn metadata_parses_or_fails_on_bad_json() {
    let meta = parse_video_metadata(
        "{\"id\":\"abc\",\"title\":\"A video\",\"uploader\":\"Someone\",\"duration\":330,\
         \"view_count\":1234567,\"formats\":[\
         {\"format_id\":\"22\",\"ext\":\"mp4\",\"resolution\":\"1280x720\",\"vcodec\":\"avc1\"},\
         {\"format_id\":\"140\",\"ext\":\"m4a\",\"vcodec\":\"none\"},\
         {\"ext\":\"mp4\"}]}",
    )
    .unwrap();
    assert_eq!(meta.id, "abc");
    assert_eq!(meta.title, "A video");
    assert_eq!(meta.uploader, "Someone");
    assert_eq!(meta.duration, Some(330));
    // The format without an id was dropped.
    assert_eq!(meta.formats.len(), 2);

    let display = meta.to_display_info();
    assert_eq!(display.duration, "5:30");
    assert_eq!(display.view_count.as_deref(), Some("1,234,567"));

    assert!(matches!(parse_video_metadata("not json"), Err(YtdlError::JsonParse(_))));
}

#[test]
fn metadata_defaults_for_missing_fields() {
    let meta = parse_video_metadata("{}").unwrap();
    assert_eq!(meta.id, "unknown");
    assert_eq!(meta.title, "Unknown Title");
    assert_eq!(meta.uploader, "Unknown");
    assert_eq!(meta.duration, None);
    assert!(meta.formats.is_empty());
    assert_eq!(meta.to_display_info().duration, "Unknown");
}

#[test]
fn format_rows_sorted_tallest_first() {
    let meta = parse_video_metadata(
        "{\"title\":\"T\",\"formats\":[\
         {\"format_id\":\"a\",\"ext\":\"mp4\",\"resolution\":\"640x360\",\"vcodec\":\"avc1\",\"filesize\":150000000},\
         {\"format_id\":\"b\",\"ext\":\"mp4\",\"resolution\":\"1920x1080\",\"vcodec\":\"avc1\"},\
         {\"format_id\":\"c\",\"ext\":\"m4a\",\"vcodec\":\"none\"},\
         {\"format_id\":\"d\",\"ext\":\"mp4\",\"resolution\":\"1280x720\",\"vcodec\":\"avc1\"}]}",
    )
    .unwrap();
    let rows = build_format_options(&meta);
    assert_eq!(rows[0].format_id, "best");
    assert_eq!(rows[rows.len() - 1].format_id, "audio");
    let middle: Vec<&str> = rows[1..rows.len() - 1].iter().map(|r| r.format_id.as_str()).collect();
    assert_eq!(middle, vec!["b", "d", "a"]);
    assert_eq!(rows[3].file_size, "150.0 MB");
}

#[test]
fn resolution_heights() {
    assert_eq!(resolution_height("1920x1080"), 1080);
    assert_eq!(resolution_height("640x360"), 360);
    assert_eq!(resolution_height("audio only"), 0);
    assert_eq!(resolution_height("1920x"), 0);
    assert_eq!(resolution_height("1920x10a0"), 0);
}

#[test]
fn view_counts_are_grouped() {
    assert_eq!(format_view_count(0), "0");
    assert_eq!(format_view_count(999), "999");
    assert_eq!(format_view_count(1000), "1,000");
    assert_eq!(format_view_count(1234567), "1,234,567");
}

#[test]
fn newest_non_partial_file_wins() {
    let entries = vec![
        FileStamp { name: "a.mp4".to_string(), modified_ms: 100, is_dir: false },
        FileStamp { name: "b.mp4.part".to_string(), modified_ms: 300, is_dir: false },
        FileStamp { name: "sub".to_string(), modified_ms: 400, is_dir: true },
        FileStamp { name: "c.mp4".to_string(), modified_ms: 200, is_dir: false },
    ];
    assert_eq!(select_newest_artifact(&entries), Some(3));
    assert_eq!(find_partial_download(&entries), Some(1));

    let none: Vec<FileStamp> = vec![FileStamp {
        name: "x.part".to_string(),
        modified_ms: 1,
        is_dir: false,
    }];
    assert_eq!(select_newest_artifact(&none), None);
}
