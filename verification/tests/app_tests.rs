use ytdl::app::{App, AppState, DownloadProgress, FormatOption, VideoInfo};
use ytdl::events::{Event, EventHandler, KeyCode, KeyPress};
use ytdl::runner::{handle_event, handle_key, Action};

fn key(code: KeyCode) -> KeyPress {
    KeyPress { code, ctrl: false }
}

fn ctrl(code: KeyCode) -> KeyPress {
    KeyPress { code, ctrl: true }
}

fn sample_info() -> VideoInfo {
    VideoInfo {
        title: "A video".to_string(),
        uploader: "Someone".to_string(),
        duration: "5:30".to_string(),
        view_count: None,
        upload_date: None,
    }
}

fn sample_formats() -> Vec<FormatOption> {
    vec![
        FormatOption {
            label: "Best Quality".to_string(),
            resolution: "Auto".to_string(),
            file_size: "Best available".to_string(),
            format_id: "best".to_string(),
        },
        FormatOption {
            label: "720p".to_string(),
            resolution: "1280x720".to_string(),
            file_size: "200.0 MB".to_string(),
            format_id: "22".to_string(),
        },
        FormatOption {
            label: "Audio Only (MP3)".to_string(),
            resolution: "N/A".to_string(),
            file_size: "~5-10 MB".to_string(),
            format_id: "audio".to_string(),
        },
    ]
}

fn app_in_format_selection() -> App {
    let mut app = App::new();
    app.show_format_selection(
        "https://youtube.com/watch?v=test".to_string(),
        sample_info(),
        sample_formats(),
    );
    app
}

fn selected_index(app: &App) -> usize {
    match &app.state {
        AppState::FormatSelection { selected_index, .. } => *selected_index,
        other => panic!("expected format selection, got {:?}", other),
    }
}

#[test]
fn typing_builds_the_url() {
    let mut app = App::new();
    for c in "youtu.be/x".chars() {
        handle_key(&mut app, key(KeyCode::Char(c)));
    }
    match &app.state {
        AppState::UrlInput { input, cursor_pos, is_valid, .. } => {
            assert_eq!(input, "youtu.be/x");
            assert_eq!(*cursor_pos, 10);
            assert_eq!(*is_valid, Some(true));
        }
        other => panic!("expected url input, got {:?}", other),
    }
}

#[test]
fn backspace_removes_before_cursor() {
    let mut app = App::new();
    handle_key(&mut app, key(KeyCode::Char('a')));
    handle_key(&mut app, key(KeyCode::Char('b')));
    handle_key(&mut app, key(KeyCode::Backspace));
    match &app.state {
        AppState::UrlInput { input, cursor_pos, is_valid, .. } => {
            assert_eq!(input, "a");
            assert_eq!(*cursor_pos, 1);
            assert_eq!(*is_valid, Some(false));
        }
        other => panic!("expected url input, got {:?}", other),
    }
}

#[test]
fn enter_on_valid_input_fetches() {
    let mut app = App::new();
    for c in "https://youtube.com/watch?v=xyz".chars() {
        handle_key(&mut app, key(KeyCode::Char(c)));
    }
    let action = handle_key(&mut app, key(KeyCode::Enter));
    match action {
        Action::FetchInfo { url } => assert_eq!(url, "https://youtube.com/watch?v=xyz"),
        other => panic!("expected a fetch action, got {:?}", other),
    }
    assert!(matches!(app.state, AppState::FetchingInfo { .. }));
}

#[test]
fn enter_on_invalid_input_stays_put() {
    let mut app = App::new();
    handle_key(&mut app, key(KeyCode::Char('x')));
    let action = handle_key(&mut app, key(KeyCode::Enter));
    assert!(matches!(action, Action::Idle));
    assert!(matches!(app.state, AppState::UrlInput { .. }));
}

#[test]
fn down_clamps_at_the_last_format() {
    let mut app = app_in_format_selection();
    assert_eq!(selected_index(&app), 0);
    handle_key(&mut app, key(KeyCode::Down));
    handle_key(&mut app, key(KeyCode::Down));
    assert_eq!(selected_index(&app), 2);
    // Down on the last valid index leaves the index unchanged.
    handle_key(&mut app, key(KeyCode::Down));
    assert_eq!(selected_index(&app), 2);
    // And Up clamps at the top.
    handle_key(&mut app, key(KeyCode::Up));
    handle_key(&mut app, key(KeyCode::Up));
    handle_key(&mut app, key(KeyCode::Up));
    assert_eq!(selected_index(&app), 0);
}

#[test]
fn enter_spawns_the_selected_download() {
    let mut app = app_in_format_selection();
    handle_key(&mut app, key(KeyCode::Down));
    let action = handle_key(&mut app, key(KeyCode::Enter));
    match action {
        Action::SpawnDownload { url, audio_only } => {
            assert_eq!(url, "https://youtube.com/watch?v=test");
            assert!(!audio_only);
        }
        other => panic!("expected a spawn action, got {:?}", other),
    }
    match &app.state {
        AppState::Downloading { format, progress, .. } => {
            assert_eq!(format.format_id, "22");
            assert_eq!(progress.percent_hundredths, 0);
        }
        other => panic!("expected downloading, got {:?}", other),
    }
}

#[test]
fn quick_audio_select_spawns_audio() {
    let mut app = app_in_format_selection();
    let action = handle_key(&mut app, key(KeyCode::Char('a')));
    match action {
        Action::SpawnDownload { audio_only, .. } => assert!(audio_only),
        other => panic!("expected a spawn action, got {:?}", other),
    }
}

#[test]
fn late_progress_update_is_discarded() {
    let mut app = app_in_format_selection();
    handle_key(&mut app, key(KeyCode::Enter));
    assert!(matches!(app.state, AppState::Downloading { .. }));

    // A first update lands while the download runs.
    app.update_progress(DownloadProgress {
        percent_hundredths: 4520,
        downloaded_bytes: 1,
        total_bytes: 2,
        speed_bytes_per_sec: 3,
        eta_seconds: Some(30),
        elapsed_seconds: 1,
    });
    match &app.state {
        AppState::Downloading { progress, .. } => assert_eq!(progress.percent_hundredths, 4520),
        other => panic!("expected downloading, got {:?}", other),
    }

    // The interrupt resets to the input screen ...
    handle_key(&mut app, ctrl(KeyCode::Char('c')));
    assert!(matches!(app.state, AppState::UrlInput { .. }));

    // ... and an update arriving after that changes nothing.
    app.update_progress(DownloadProgress {
        percent_hundredths: 9900,
        downloaded_bytes: 9,
        total_bytes: 9,
        speed_bytes_per_sec: 9,
        eta_seconds: None,
        elapsed_seconds: 9,
    });
    match &app.state {
        AppState::UrlInput { input, .. } => assert_eq!(input, ""),
        other => panic!("the update must not resurrect a state, got {:?}", other),
    }
}

#[test]
fn overlays_capture_and_restore() {
    let mut app = app_in_format_selection();
    handle_key(&mut app, key(KeyCode::Down));
    handle_key(&mut app, key(KeyCode::Char('h')));
    assert!(matches!(app.state, AppState::Help { .. }));
    // Help does not stack on help.
    handle_key(&mut app, key(KeyCode::Char('h')));
    assert!(matches!(app.state, AppState::Help { .. }));
    handle_key(&mut app, key(KeyCode::Esc));
    assert_eq!(selected_index(&app), 1);
}

#[test]
fn help_is_text_on_the_input_screen() {
    let mut app = App::new();
    handle_key(&mut app, key(KeyCode::Char('h')));
    match &app.state {
        AppState::UrlInput { input, .. } => assert_eq!(input, "h"),
        other => panic!("expected url input, got {:?}", other),
    }
}

#[test]
fn quit_keys_end_the_session() {
    // The quit keys run before any state-specific dispatch.
    let mut app = App::new();
    assert!(!app.should_quit);
    handle_key(&mut app, key(KeyCode::Char('q')));
    assert!(app.should_quit);
    let mut app = app_in_format_selection();
    handle_key(&mut app, ctrl(KeyCode::Char('c')));
    assert!(app.should_quit);
    // During a download, Control-c is the interrupt instead.
    let mut app = app_in_format_selection();
    handle_key(&mut app, key(KeyCode::Enter));
    handle_key(&mut app, ctrl(KeyCode::Char('c')));
    assert!(!app.should_quit);
}

#[test]
fn paste_lands_at_the_cursor() {
    let mut app = App::new();
    handle_key(&mut app, key(KeyCode::Char('a')));
    handle_event(&mut app, Event::Paste("youtube.com".to_string()));
    match &app.state {
        AppState::UrlInput { input, cursor_pos, is_valid, .. } => {
            assert_eq!(input, "ayoutube.com");
            assert_eq!(*cursor_pos, 12);
            assert_eq!(*is_valid, Some(true));
        }
        other => panic!("expected url input, got {:?}", other),
    }
}

#[test]
fn error_screen_returns_to_input() {
    let mut app = App::new();
    app.start_fetching_info("https://youtu.be/x".to_string());
    app.go_to_error(
        "Fetch Error".to_string(),
        "could not fetch".to_string(),
        vec!["Check your internet connection".to_string()],
    );
    match &app.state {
        AppState::Error { last_url, retry_count, .. } => {
            assert_eq!(last_url.as_deref(), Some("https://youtu.be/x"));
            assert_eq!(*retry_count, 0);
        }
        other => panic!("expected error, got {:?}", other),
    }
    handle_key(&mut app, key(KeyCode::Char('r')));
    assert!(matches!(app.state, AppState::UrlInput { .. }));
}

#[test]
fn event_handler_cadence() {
    assert_eq!(EventHandler::default().tick_rate_ms, 16);
    assert_eq!(EventHandler::new(100).tick_rate_ms, 100);
}

#[test]
fn settings_selection_clamps() {
    let mut app = app_in_format_selection();
    app.go_to_settings("./downloads".to_string(), "best".to_string(), 3);
    for _ in 0..10 {
        handle_key(&mut app, key(KeyCode::Down));
    }
    match &app.state {
        AppState::Settings { settings, .. } => assert_eq!(settings.selected_index, 4),
        other => panic!("expected settings, got {:?}", other),
    }
    handle_key(&mut app, key(KeyCode::Esc));
    assert!(matches!(app.state, AppState::FormatSelection { .. }));
}
