use ytdl::batch::{BatchDownloadItem, BatchDownloader, DownloadStatus};
use ytdl::config::Config;
use ytdl::error::YtdlError;
use ytdl::history::{History, HistoryEntry};

fn config_with_limit(limit: usize) -> Config {
    let mut config = Config::default();
    config.concurrent_downloads = Some(limit);
    config
}

#[test]
fn test_batch_download_item() {
    let item = BatchDownloadItem::new("https://youtube.com/watch?v=test".to_string());
    assert_eq!(item.status, DownloadStatus::Pending);
    assert_eq!(item.progress_hundredths, 0);
}

#[test]
fn test_add_urls() {
    let config = Config::default();
    let history = History::new();
    let mut batch = BatchDownloader::new(config, history, false);

    let urls = vec!["https://youtube.com/watch?v=test".to_string()];
    batch.add_urls(urls).unwrap();

    let items = batch.get_items();
    assert_eq!(items.len(), 1);
}

#[test]
fn add_urls_rejects_invalid() {
    let mut batch = BatchDownloader::new(Config::default(), History::new(), false);
    let urls = vec![
        "https://youtube.com/watch?v=ok".to_string(),
        "https://example.com/video".to_string(),
    ];
    let err = batch.add_urls(urls).unwrap_err();
    assert!(matches!(err, YtdlError::InvalidUrl(_)));
    // The valid URL before the invalid one was kept, as when a batch
    // file is read line by line.
    assert_eq!(batch.get_items().len(), 1);
}

#[test]
fn concurrency_limit_is_clamped() {
    let b = BatchDownloader::new(config_with_limit(0), History::new(), false);
    assert_eq!(b.concurrent_limit, 1);
    let b = BatchDownloader::new(config_with_limit(99), History::new(), false);
    assert_eq!(b.concurrent_limit, 10);
    let b = BatchDownloader::new(Config::default(), History::new(), false);
    assert_eq!(b.concurrent_limit, 3);
}

#[test]
fn downloading_never_exceeds_limit() {
    let mut b = BatchDownloader::new(config_with_limit(2), History::new(), false);
    b.add_urls(vec![
        "https://youtube.com/watch?v=a1".to_string(),
        "https://youtube.com/watch?v=a2".to_string(),
        "https://youtube.com/watch?v=a3".to_string(),
    ])
    .unwrap();

    let first = b.try_begin_next().expect("first admission");
    let second = b.try_begin_next().expect("second admission");
    assert_eq!(first.0, 0);
    assert_eq!(second.0, 1);
    // The ceiling is reached: nothing more is admitted.
    assert!(b.try_begin_next().is_none());
    assert_eq!(b.get_progress().downloading, 2);

    // One resolves; the next pending job may come in.
    b.complete_job(first.0, "/tmp/a1.mp4".to_string(), 10, "a1".to_string());
    let third = b.try_begin_next().expect("admission after completion");
    assert_eq!(third.0, 2);
    assert!(b.try_begin_next().is_none());
}

#[test]
fn skipped_jobs_are_never_dispatched() {
    let mut history = History::new();
    history.add_entry(HistoryEntry::new(
        "https://youtube.com/watch?v=done".to_string(),
        "Done before".to_string(),
        "/tmp/done.mp4".to_string(),
        1,
        "best".to_string(),
        "mp4".to_string(),
    ));
    let mut b = BatchDownloader::new(Config::default(), history, false);
    b.add_urls(vec![
        "https://youtube.com/watch?v=done".to_string(),
        "https://youtube.com/watch?v=new1".to_string(),
    ])
    .unwrap();

    assert_eq!(b.check_duplicates(), vec!["https://youtube.com/watch?v=done".to_string()]);
    b.skip_duplicates();

    // The skipped job is passed over; only the fresh one runs.
    let (idx, url) = b.try_begin_next().expect("the fresh job is admitted");
    assert_eq!(idx, 1);
    assert_eq!(url, "https://youtube.com/watch?v=new1");
    assert!(b.try_begin_next().is_none());
}

#[test]
fn skip_duplicates_is_idempotent() {
    let mut history = History::new();
    history.add_entry(HistoryEntry::new(
        "https://youtube.com/watch?v=done".to_string(),
        "Done before".to_string(),
        "/tmp/done.mp4".to_string(),
        1,
        "best".to_string(),
        "mp4".to_string(),
    ));
    let mut b = BatchDownloader::new(Config::default(), history, false);
    b.add_urls(vec![
        "https://youtube.com/watch?v=done".to_string(),
        "https://youtube.com/watch?v=new1".to_string(),
    ])
    .unwrap();

    b.skip_duplicates();
    let once: Vec<DownloadStatus> = b.get_items().iter().map(|i| i.status.clone()).collect();
    b.skip_duplicates();
    let twice: Vec<DownloadStatus> = b.get_items().iter().map(|i| i.status.clone()).collect();
    assert_eq!(once, twice);
    assert_eq!(once[0], DownloadStatus::Skipped);
    assert_eq!(once[1], DownloadStatus::Pending);
}

#[test]
fn stats_partition_a_finished_run() {
    let mut b = BatchDownloader::new(config_with_limit(10), History::new(), false);
    b.add_urls(vec![
        "https://youtube.com/watch?v=a1".to_string(),
        "https://youtube.com/watch?v=a2".to_string(),
        "https://youtube.com/watch?v=a3".to_string(),
    ])
    .unwrap();
    b.skip_duplicates();

    let (i1, _) = b.try_begin_next().unwrap();
    b.complete_job(i1, "/tmp/a1.mp4".to_string(), 100, "a1".to_string());
    let (i2, _) = b.try_begin_next().unwrap();
    assert!(!b.fail_job(i2, "network error".to_string()));
    let (i3, _) = b.try_begin_next().unwrap();
    b.complete_job(i3, "/tmp/a3.mp4".to_string(), 300, "a3".to_string());
    assert!(b.try_begin_next().is_none());

    let stats = b.stats();
    assert_eq!(stats.total, 3);
    assert_eq!(stats.successful, 2);
    assert_eq!(stats.failed, 1);
    assert_eq!(stats.skipped, 0);
    assert_eq!(stats.total, stats.successful + stats.failed + stats.skipped);

    let progress = b.get_progress();
    assert_eq!(progress.downloading, 0);
    assert_eq!(progress.percentage(), 10000);
}

#[test]
fn load_from_lines_keeps_valid_urls() {
    let mut b = BatchDownloader::new(Config::default(), History::new(), false);
    let lines = vec![
        "# my watch list".to_string(),
        "".to_string(),
        "  https://youtube.com/watch?v=one  ".to_string(),
        "not a url at all".to_string(),
        "https://youtu.be/two".to_string(),
    ];
    b.load_from_lines(&lines).unwrap();
    let items = b.get_items();
    assert_eq!(items.len(), 2);
    assert_eq!(items[0].url, "https://youtube.com/watch?v=one");
    assert_eq!(items[1].url, "https://youtu.be/two");
    assert_eq!(items[0].status, DownloadStatus::Pending);
}

#[test]
fn load_of_only_blanks_and_comments_fails() {
    let mut b = BatchDownloader::new(Config::default(), History::new(), false);
    let lines = vec![
        "".to_string(),
        "   ".to_string(),
        "# just a comment".to_string(),
        "\t# another one".to_string(),
    ];
    let err = b.load_from_lines(&lines).unwrap_err();
    match err {
        YtdlError::Config(m) => assert_eq!(m, "No valid URLs found in batch file"),
        other => panic!("expected a configuration error, got {:?}", other),
    }
    assert!(b.get_items().is_empty());
}

#[test]
fn fail_job_reports_stop_on_error() {
    let mut b = BatchDownloader::new(Config::default(), History::new(), true);
    b.add_urls(vec!["https://youtube.com/watch?v=a1".to_string()]).unwrap();
    let (i, _) = b.try_begin_next().unwrap();
    assert!(b.fail_job(i, "boom".to_string()));
    match &b.get_items()[0].status {
        DownloadStatus::Failed(reason) => assert_eq!(reason, "boom"),
        other => panic!("expected a failure, got {:?}", other),
    }
}

#[test]
fn update_progress_touches_only_the_job() {
    let mut b = BatchDownloader::new(Config::default(), History::new(), false);
    b.add_urls(vec![
        "https://youtube.com/watch?v=a1".to_string(),
        "https://youtube.com/watch?v=a2".to_string(),
    ])
    .unwrap();
    let (i, _) = b.try_begin_next().unwrap();
    b.update_progress(i, 4520);
    let items = b.get_items();
    assert_eq!(items[0].progress_hundredths, 4520);
    assert_eq!(items[1].progress_hundredths, 0);
}
