use ytdl::progress::parse_progress_line;

#[test]
fn progress_line_with_all_fields() {
    let sample = parse_progress_line(b"[download]  45.2% of ~150.00MiB at 2.50MiB/s ETA 00:30")
        .expect("a line with a percentage yields a sample");
    assert_eq!(sample.percent_hundredths, 4520);
    assert_eq!(sample.total_bytes, 157286400);
    assert_eq!(sample.speed_bytes_per_sec, 2621440);
    assert_eq!(sample.eta_seconds, Some(30));
    // 45.2% of 157286400 bytes, truncated
    assert_eq!(sample.downloaded_bytes, 71093452);
}

#[test]
fn line_without_percent_yields_nothing() {
    assert!(parse_progress_line(b"WARNING: unable to obtain file audio codec with ffprobe").is_none());
    assert!(parse_progress_line(b"").is_none());
    assert!(parse_progress_line(b"[youtube] dQw4w9WgXcQ: Downloading webpage").is_none());
}

#[test]
fn percent_alone_gives_defaults() {
    let sample = parse_progress_line(b"[download]   0.0%").unwrap();
    assert_eq!(sample.percent_hundredths, 0);
    assert_eq!(sample.total_bytes, 0);
    assert_eq!(sample.downloaded_bytes, 0);
    assert_eq!(sample.speed_bytes_per_sec, 0);
    assert_eq!(sample.eta_seconds, None);
}

#[test]
fn percent_without_download_tag_still_counts() {
    // The percentage pattern alone decides whether a sample exists.
    let sample = parse_progress_line(b"progress 12.5% done").unwrap();
    assert_eq!(sample.percent_hundredths, 1250);
}

#[test]
fn percent_token_shapes() {
    assert_eq!(parse_progress_line(b"100%").unwrap().percent_hundredths, 10000);
    // A trailing dot still reads as a whole number.
    assert_eq!(parse_progress_line(b" 45.%").unwrap().percent_hundredths, 4500);
    // Extra decimals beyond hundredths are dropped.
    assert_eq!(parse_progress_line(b"3.14159%").unwrap().percent_hundredths, 314);
    // A percent sign with no number before it is not a token.
    assert!(parse_progress_line(b"% off everything").is_none());
}

#[test]
fn eta_with_hours() {
    let sample = parse_progress_line(b"[download]  1.0% of 2.00GiB at 512.00KiB/s ETA 1:02:03").unwrap();
    assert_eq!(sample.eta_seconds, Some(3723));
    assert_eq!(sample.total_bytes, 2 * 1024 * 1024 * 1024);
    assert_eq!(sample.speed_bytes_per_sec, 512 * 1024);
}

#[test]
fn eta_with_bad_clock_is_ignored() {
    let sample = parse_progress_line(b"[download] 10.0% ETA 1:2:3:4").unwrap();
    assert_eq!(sample.eta_seconds, None);
}

#[test]
fn size_without_tilde() {
    let sample = parse_progress_line(b"[download] 50.0% of 1.00KiB at 1.00KiB/s ETA 00:01").unwrap();
    assert_eq!(sample.total_bytes, 1024);
    assert_eq!(sample.downloaded_bytes, 512);
}

#[test]
fn unknown_units_count_bytes() {
    let sample = parse_progress_line(b"[download] 50.0% of 500B at 10B/s ETA 00:50").unwrap();
    assert_eq!(sample.total_bytes, 500);
    assert_eq!(sample.speed_bytes_per_sec, 10);
}

#[test]
fn parsing_is_pure() {
    let line: &[u8] = b"[download]  45.2% of ~150.00MiB at 2.50MiB/s ETA 00:30";
    assert_eq!(parse_progress_line(line), parse_progress_line(line));
}
