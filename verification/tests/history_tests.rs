use ytdl::history::{History, HistoryEntry};

#[test]
fn test_new_history() {
    let history = History::new();
    assert_eq!(history.len(), 0);
    assert!(history.is_empty());
}

#[test]
fn test_add_entry() {
    let mut history = History::new();
    let entry = HistoryEntry::new(
        "https://youtube.com/watch?v=test".to_string(),
        "Test Video".to_string(),
        "/tmp/test.mp4".to_string(),
        1024,
        "720p".to_string(),
        "mp4".to_string(),
    );

    history.add_entry(entry);
    assert_eq!(history.len(), 1);
    assert!(history.contains_url("https://youtube.com/watch?v=test"));
}

#[test]
fn test_search() {
    let mut history = History::new();
    history.add_entry(HistoryEntry::new(
        "https://youtube.com/watch?v=1".to_string(),
        "Rust Tutorial".to_string(),
        "/tmp/1.mp4".to_string(),
        1024,
        "720p".to_string(),
        "mp4".to_string(),
    ));
    history.add_entry(HistoryEntry::new(
        "https://youtube.com/watch?v=2".to_string(),
        "Python Guide".to_string(),
        "/tmp/2.mp4".to_string(),
        2048,
        "1080p".to_string(),
        "mp4".to_string(),
    ));

    let results = history.search("rust");
    assert_eq!(results.len(), 1);
    assert_eq!(results[0].title, "Rust Tutorial");
}

#[test]
fn search_folds_case_both_ways() {
    let mut history = History::new();
    history.add_entry(HistoryEntry::new(
        "https://youtube.com/watch?v=1".to_string(),
        "RUST TUTORIAL".to_string(),
        "/tmp/1.mp4".to_string(),
        1,
        "720p".to_string(),
        "mp4".to_string(),
    ));
    assert_eq!(history.search("Rust").len(), 1);
    assert_eq!(history.search("tutorial").len(), 1);
    assert_eq!(history.search("python").len(), 0);
}

#[test]
fn lookup_finds_the_entry() {
    let mut history = History::new();
    history.add_entry(HistoryEntry::new(
        "https://youtube.com/watch?v=a".to_string(),
        "First".to_string(),
        "/tmp/a.mp4".to_string(),
        1,
        "best".to_string(),
        "mp4".to_string(),
    ));
    let found = history.get_entry_by_url("https://youtube.com/watch?v=a").unwrap();
    assert_eq!(found.title, "First");
    assert!(history.get_entry_by_url("https://youtube.com/watch?v=b").is_none());
    assert!(!history.contains_url("https://youtube.com/watch?v=b"));
}

#[test]
fn recent_entries_come_newest_first() {
    let mut history = History::new();
    let mut old_entry = HistoryEntry::new(
        "https://youtube.com/watch?v=old".to_string(),
        "Old".to_string(),
        "/tmp/old.mp4".to_string(),
        1,
        "best".to_string(),
        "mp4".to_string(),
    );
    old_entry.timestamp = 1000;
    let mut new_entry = old_entry.clone();
    new_entry.url = "https://youtube.com/watch?v=new".to_string();
    new_entry.title = "New".to_string();
    new_entry.timestamp = 2000;
    let mut mid_entry = old_entry.clone();
    mid_entry.title = "Mid".to_string();
    mid_entry.timestamp = 1500;
    history.add_entry(old_entry);
    history.add_entry(new_entry);
    history.add_entry(mid_entry);

    let recent = history.get_recent(2);
    assert_eq!(recent.len(), 2);
    assert_eq!(recent[0].title, "New");
    assert_eq!(recent[1].title, "Mid");
}

#[test]
fn clearing_forgets_entries() {
    let mut history = History::new();
    let mut e = HistoryEntry::new(
        "https://youtube.com/watch?v=a".to_string(),
        "A".to_string(),
        "/tmp/a.mp4".to_string(),
        1,
        "best".to_string(),
        "mp4".to_string(),
    );
    e.timestamp = 5;
    history.add_entry(e.clone());
    history.remove_older_than_cutoff(10);
    assert!(history.is_empty());

    history.add_entry(e);
    history.clear();
    assert_eq!(history.len(), 0);
}
