//! The interaction state machine of the interactive session: input,
//! metadata fetch, format selection, download, success or error, and
//! two overlays that return to the state they were opened from.
//!
//! The session loop outside the crate renders the current state,
//! feeds events in, and performs the actions handed back: fetching
//! metadata and spawning downloads. Background tasks deliver progress
//! through `update_progress`, which applies an update only while the
//! session is still downloading.

use vstd::prelude::*;
use vstd::string::StrSliceExecFns;
use vstd::string::StringExecFns;

use crate::strutil::spec_contains;
use crate::strutil::contains_str;
use crate::widgets::{BlinkingCursor, CheckmarkAnimation, ColorCycle, PulsingSelection, Spinner};

verus! {

/// Display metadata of one video.
#[derive(Debug)]
pub struct VideoInfo {
    pub title: String,
    pub uploader: String,
    pub duration: String,
    pub view_count: Option<String>,
    pub upload_date: Option<String>,
}

impl Clone for VideoInfo {
    /// A clone is the same metadata.
    fn clone(&self) -> (r: Self)
        ensures
            r == *self,
    {
        VideoInfo {
            title: self.title.clone(),
            uploader: self.uploader.clone(),
            duration: self.duration.clone(),
            view_count: match &self.view_count {
                Option::Some(v) => Some(v.clone()),
                Option::None => None,
            },
            upload_date: match &self.upload_date {
                Option::Some(v) => Some(v.clone()),
                Option::None => None,
            },
        }
    }
}

/// One selectable download format.
#[derive(Debug)]
pub struct FormatOption {
    pub label: String,
    pub resolution: String,
    pub file_size: String,
    pub format_id: String,
}

impl Clone for FormatOption {
    /// A clone is the same option.
    fn clone(&self) -> (r: Self)
        ensures
            r == *self,
    {
        FormatOption {
            label: self.label.clone(),
            resolution: self.resolution.clone(),
            file_size: self.file_size.clone(),
            format_id: self.format_id.clone(),
        }
    }
}

/// The live progress of the running download. Fractional quantities
/// are held in hundredths, as in the progress parser's samples.
#[derive(Debug, Clone, Copy, PartialEq, Eq, Structural)]
pub struct DownloadProgress {
    /// Completion percentage, in hundredths of a percent.
    pub percent_hundredths: u64,
    pub downloaded_bytes: u64,
    pub total_bytes: u64,
    /// Transfer speed in bytes per second.
    pub speed_bytes_per_sec: u64,
    pub eta_seconds: Option<u64>,
    pub elapsed_seconds: u64,
}

/// A download at its start: everything zero, no ETA yet.
pub open spec fn zero_progress(p: DownloadProgress) -> bool {
    p == (DownloadProgress {
        percent_hundredths: 0,
        downloaded_bytes: 0,
        total_bytes: 0,
        speed_bytes_per_sec: 0,
        eta_seconds: None,
        elapsed_seconds: 0,
    })
}

/// What the success screen shows.
#[derive(Debug)]
pub struct DownloadSuccess {
    pub filename: String,
    pub file_size: String,
    pub duration: String,
    pub save_location: String,
}

impl Clone for DownloadSuccess {
    /// A clone is the same summary.
    fn clone(&self) -> (r: Self)
        ensures
            r == *self,
    {
        DownloadSuccess {
            filename: self.filename.clone(),
            file_size: self.file_size.clone(),
            duration: self.duration.clone(),
            save_location: self.save_location.clone(),
        }
    }
}

/// One line of the recent-downloads list on the input screen.
#[derive(Debug)]
pub struct DownloadHistory {
    pub title: String,
    /// Seconds since the Unix epoch at which the download finished.
    pub timestamp: u64,
    pub url: String,
}

impl Clone for DownloadHistory {
    /// A clone is the same line.
    fn clone(&self) -> (r: Self)
        ensures
            r == *self,
    {
        DownloadHistory {
            title: self.title.clone(),
            timestamp: self.timestamp,
            url: self.url.clone(),
        }
    }
}

/// The settings overlay's rows and selection.
#[derive(Debug)]
pub struct SettingsState {
    pub output_dir: String,
    pub quality: String,
    pub concurrent_downloads: usize,
    pub audio_format: String,
    pub selected_index: usize,
}

impl SettingsState {
    /// A settings sheet opened on the given values, with the audio
    /// format fixed to mp3 and the first row selected.
    pub fn new(output_dir: String, quality: String, concurrent_downloads: usize) -> (r:
        SettingsState)
        ensures
            r.output_dir == output_dir,
            r.quality == quality,
            r.concurrent_downloads == concurrent_downloads,
            r.audio_format@ == "mp3"@,
            r.selected_index == 0,
    {
        SettingsState {
            output_dir,
            quality,
            concurrent_downloads,
            audio_format: "mp3".to_owned(),
            selected_index: 0,
        }
    }
}

impl Clone for SettingsState {
    /// A clone is the same sheet.
    fn clone(&self) -> (r: Self)
        ensures
            r == *self,
    {
        SettingsState {
            output_dir: self.output_dir.clone(),
            quality: self.quality.clone(),
            concurrent_downloads: self.concurrent_downloads,
            audio_format: self.audio_format.clone(),
            selected_index: self.selected_index,
        }
    }
}

/// The states of the session. The two overlay states carry the state
/// they were opened from; overlays never stack, so the carried state
/// is itself never an overlay.
#[derive(Debug)]
pub enum AppState {
    UrlInput {
        input: String,
        cursor_pos: usize,
        is_valid: Option<bool>,
        validation_message: String,
        recent_downloads: Vec<DownloadHistory>,
    },
    FetchingInfo {
        url: String,
    },
    FormatSelection {
        url: String,
        video_info: VideoInfo,
        formats: Vec<FormatOption>,
        selected_index: usize,
    },
    Downloading {
        url: String,
        video_info: VideoInfo,
        format: FormatOption,
        progress: DownloadProgress,
    },
    Success {
        info: DownloadSuccess,
    },
    Error {
        error_type: String,
        message: String,
        suggestions: Vec<String>,
        last_url: Option<String>,
        retry_count: usize,
    },
    Help {
        previous_state: Box<AppState>,
    },
    Settings {
        settings: SettingsState,
        previous_state: Box<AppState>,
    },
}

/// Whether a state is one of the two overlays.
pub open spec fn is_overlay(s: AppState) -> bool {
    s is Help || s is Settings
}

/// A state machine invariant: overlays never stack, so the state an
/// overlay was opened from is itself no overlay (and well formed in
/// turn); and a format selection's index stays on a real row.
pub open spec fn state_wf(s: AppState) -> bool
    decreases s,
{
    match s {
        AppState::Help { previous_state } => !is_overlay(*previous_state) && state_wf(
            *previous_state,
        ),
        AppState::Settings { previous_state, .. } => !is_overlay(*previous_state) && state_wf(
            *previous_state,
        ),
        AppState::FormatSelection { formats, selected_index, .. } => formats@.len() == 0
            || selected_index < formats@.len(),
        _ => true,
    }
}

/// A fresh input state: empty buffer, no verdict yet, the hint shown.
pub open spec fn is_fresh_url_input(s: AppState) -> bool {
    match s {
        AppState::UrlInput { input, cursor_pos, is_valid, validation_message, recent_downloads } => {
            &&& input@ == Seq::<char>::empty()
            &&& cursor_pos == 0
            &&& is_valid is None
            &&& validation_message@ == "Paste a YouTube URL or press Ctrl+V"@
            &&& recent_downloads@.len() == 0
        },
        _ => false,
    }
}

/// Whether a buffer passes the live shape check: it names one of the
/// two accepted hosts somewhere.
pub open spec fn input_looks_valid(input: Seq<char>) -> bool {
    spec_contains(input, "youtube.com"@) || spec_contains(input, "youtu.be"@)
}

/// The input state after typing: the verdict and the message follow
/// the buffer — no verdict on an empty buffer, valid or invalid by
/// the live shape check otherwise.
pub open spec fn is_updated_input(s: AppState, input: Seq<char>, cursor_pos: int, recent: Seq<
    DownloadHistory,
>) -> bool {
    match s {
        AppState::UrlInput {
            input: i,
            cursor_pos: c,
            is_valid,
            validation_message,
            recent_downloads,
        } => {
            &&& i@ == input
            &&& c == cursor_pos
            &&& recent_downloads@ == recent
            &&& if input.len() == 0 {
                is_valid is None && validation_message@ == "Paste a YouTube URL or press Ctrl+V"@
            } else if input_looks_valid(input) {
                is_valid == Some(true) && validation_message@ == "Valid YouTube URL"@
            } else {
                is_valid == Some(false) && validation_message@ == "Invalid YouTube URL"@
            }
        },
        _ => false,
    }
}

/// The URL a state would blame an error on: the buffer while typing,
/// the target while fetching or downloading.
pub open spec fn spec_last_url(s: AppState) -> Option<Seq<char>> {
    match s {
        AppState::UrlInput { input, .. } => Some(input@),
        AppState::FetchingInfo { url } => Some(url@),
        AppState::Downloading { url, .. } => Some(url@),
        _ => None,
    }
}

/// An error state built by `go_to_error` from a prior state.
pub open spec fn is_error_from(s: AppState, prior: AppState, error_type: Seq<char>, message: Seq<
    char,
>, suggestions: Seq<String>) -> bool {
    match s {
        AppState::Error { error_type: t, message: m, suggestions: sg, last_url, retry_count } => {
            &&& t@ == error_type
            &&& m@ == message
            &&& sg@ == suggestions
            &&& retry_count == 0
            &&& match spec_last_url(prior) {
                Option::Some(u) => last_url matches Some(l) && l@ == u,
                Option::None => last_url is None,
            }
        },
        _ => false,
    }
}

// ---------------------------------------------------------------------------
// Transition functions for the in-place updates
// ---------------------------------------------------------------------------
/// What a progress update does: it writes the sample into the
/// `Downloading` state and nothing else — a state that has moved on
/// is left untouched.
pub open spec fn spec_update_progress(s: AppState, p: DownloadProgress) -> AppState {
    match s {
        AppState::Downloading { url, video_info, format, progress } => AppState::Downloading {
            url,
            video_info,
            format,
            progress: p,
        },
        _ => s,
    }
}

/// What `Down` does to a format selection: the index moves one row
/// down, clamped to the last valid row.
pub open spec fn spec_select_next_format(s: AppState) -> AppState {
    match s {
        AppState::FormatSelection { url, video_info, formats, selected_index } => {
            if selected_index + 1 < formats@.len() {
                AppState::FormatSelection {
                    url,
                    video_info,
                    formats,
                    selected_index: (selected_index + 1) as usize,
                }
            } else {
                AppState::FormatSelection { url, video_info, formats, selected_index }
            }
        },
        _ => s,
    }
}

/// What `Up` does to a format selection: the index moves one row up,
/// clamped to the first row.
pub open spec fn spec_select_previous_format(s: AppState) -> AppState {
    match s {
        AppState::FormatSelection { url, video_info, formats, selected_index } => {
            if selected_index > 0 {
                AppState::FormatSelection {
                    url,
                    video_info,
                    formats,
                    selected_index: (selected_index - 1) as usize,
                }
            } else {
                AppState::FormatSelection { url, video_info, formats, selected_index }
            }
        },
        _ => s,
    }
}

/// What `Down` does to the settings sheet: the selection moves one
/// row down, clamped to the last of the five rows.
pub open spec fn spec_select_next_setting(s: AppState) -> AppState {
    match s {
        AppState::Settings { settings, previous_state } => {
            if settings.selected_index < 4 {
                AppState::Settings {
                    settings: SettingsState {
                        selected_index: (settings.selected_index + 1) as usize,
                        ..settings
                    },
                    previous_state,
                }
            } else {
                AppState::Settings { settings, previous_state }
            }
        },
        _ => s,
    }
}

/// What `Up` does to the settings sheet: the selection moves one row
/// up, clamped to the first row.
pub open spec fn spec_select_previous_setting(s: AppState) -> AppState {
    match s {
        AppState::Settings { settings, previous_state } => {
            if settings.selected_index > 0 {
                AppState::Settings {
                    settings: SettingsState {
                        selected_index: (settings.selected_index - 1) as usize,
                        ..settings
                    },
                    previous_state,
                }
            } else {
                AppState::Settings { settings, previous_state }
            }
        },
        _ => s,
    }
}

/// What starting the download does: the format under the cursor is
/// fixed and the session moves to `Downloading` with zeroed progress.
/// Anything but a format selection with a valid row is left alone.
pub open spec fn spec_start_download(s: AppState) -> AppState {
    match s {
        AppState::FormatSelection { url, video_info, formats, selected_index } => {
            if selected_index < formats@.len() {
                AppState::Downloading {
                    url,
                    video_info,
                    format: formats@[selected_index as int],
                    progress: DownloadProgress {
                        percent_hundredths: 0,
                        downloaded_bytes: 0,
                        total_bytes: 0,
                        speed_bytes_per_sec: 0,
                        eta_seconds: None,
                        elapsed_seconds: 0,
                    },
                }
            } else {
                AppState::FormatSelection { url, video_info, formats, selected_index }
            }
        },
        _ => s,
    }
}

/// What leaving an overlay does: the captured state is restored
/// exactly; any other state is left alone.
pub open spec fn spec_back_from_overlay(s: AppState) -> AppState {
    match s {
        AppState::Help { previous_state } => *previous_state,
        AppState::Settings { previous_state, .. } => *previous_state,
        _ => s,
    }
}

/// The whole session: its state, the quit flag, and the widgets'
/// animation counters.
#[derive(Debug)]
pub struct App {
    pub state: AppState,
    pub should_quit: bool,
    pub spinner: Spinner,
    pub cursor: BlinkingCursor,
    pub checkmark: CheckmarkAnimation,
    pub color_cycle: ColorCycle,
    pub pulsing_selection: PulsingSelection,
}

impl App {
    /// The session's invariant: the state is well formed and the
    /// widget counters sit inside their cycles.
    pub open spec fn wf(&self) -> bool {
        &&& state_wf(self.state)
        &&& self.spinner.wf()
        &&& self.checkmark.wf()
        &&& self.color_cycle.wf()
        &&& self.pulsing_selection.wf()
    }

    /// Whether nothing but the session's state and quit flag changed.
    pub open spec fn same_widgets(pre: &App, post: &App) -> bool {
        &&& post.spinner == pre.spinner
        &&& post.cursor == pre.cursor
        &&& post.checkmark == pre.checkmark
        &&& post.color_cycle == pre.color_cycle
        &&& post.pulsing_selection == pre.pulsing_selection
    }

    fn fresh_url_input_state() -> (s: AppState)
        ensures
            is_fresh_url_input(s),
            state_wf(s),
    {
        AppState::UrlInput {
            input: String::new(),
            cursor_pos: 0,
            is_valid: None,
            validation_message: "Paste a YouTube URL or press Ctrl+V".to_owned(),
            recent_downloads: Vec::new(),
        }
    }

    /// A fresh session: at the input screen, not quitting, the
    /// animations at their first frames.
    pub fn new() -> (r: App)
        ensures
            r.wf(),
            is_fresh_url_input(r.state),
            !r.should_quit,
    {
        App {
            state: App::fresh_url_input_state(),
            should_quit: false,
            spinner: Spinner::new(),
            cursor: BlinkingCursor::new(),
            checkmark: CheckmarkAnimation::new(),
            color_cycle: ColorCycle::new(),
            pulsing_selection: PulsingSelection::new(),
        }
    }

    /// Advances every animation one step of wall-clock time.
    pub fn tick(&mut self)
        requires
            old(self).wf(),
        ensures
            final(self).wf(),
            final(self).state == old(self).state,
            final(self).should_quit == old(self).should_quit,
    {
        self.spinner.tick();
        self.cursor.tick();
        self.checkmark.tick();
        self.color_cycle.tick();
        self.pulsing_selection.tick();
    }

    /// Asks the session loop to end.
    pub fn quit(&mut self)
        ensures
            final(self).should_quit,
            final(self).state == old(self).state,
            App::same_widgets(old(self), final(self)),
    {
        self.should_quit = true;
    }

    /// Starts over at a fresh input screen.
    pub fn go_to_url_input(&mut self)
        ensures
            is_fresh_url_input(final(self).state),
            state_wf(final(self).state),
            final(self).should_quit == old(self).should_quit,
            App::same_widgets(old(self), final(self)),
    {
        self.state = App::fresh_url_input_state();
    }

    /// Shows an error, blaming the URL the session was working on.
    pub fn go_to_error(&mut self, error_type: String, message: String, suggestions: Vec<String>)
        ensures
            is_error_from(
                final(self).state,
                old(self).state,
                error_type@,
                message@,
                suggestions@,
            ),
            state_wf(final(self).state),
            final(self).should_quit == old(self).should_quit,
            App::same_widgets(old(self), final(self)),
    {
        let last_url = match &self.state {
            AppState::UrlInput { input, .. } => Some(input.clone()),
            AppState::FetchingInfo { url } => Some(url.clone()),
            AppState::Downloading { url, .. } => Some(url.clone()),
            _ => None,
        };
        self.state = AppState::Error { error_type, message, suggestions, last_url, retry_count: 0 };
    }

    /// Opens the help overlay over the current state; while an
    /// overlay is already open, nothing happens (overlays do not
    /// stack).
    pub fn go_to_help(&mut self)
        requires
            old(self).wf(),
        ensures
            final(self).wf(),
            is_overlay(old(self).state) ==> final(self).state == old(self).state,
            !is_overlay(old(self).state) ==> (final(self).state matches AppState::Help {
                previous_state,
            } && *previous_state == old(self).state),
            final(self).should_quit == old(self).should_quit,
            App::same_widgets(old(self), final(self)),
    {
        match &self.state {
            AppState::Help { .. } => {},
            AppState::Settings { .. } => {},
            _ => {
                let mut taken = App::fresh_url_input_state();
                core::mem::swap(&mut self.state, &mut taken);
                self.state = AppState::Help { previous_state: Box::new(taken) };
            },
        }
    }

    /// Opens the settings overlay over the current state, seeded with
    /// the given values; while an overlay is already open, nothing
    /// happens (overlays do not stack).
    pub fn go_to_settings(&mut self, output_dir: String, quality: String, concurrent: usize)
        requires
            old(self).wf(),
        ensures
            final(self).wf(),
            is_overlay(old(self).state) ==> final(self).state == old(self).state,
            !is_overlay(old(self).state) ==> (final(self).state matches AppState::Settings {
                settings,
                previous_state,
            } && *previous_state == old(self).state && settings.output_dir == output_dir
                && settings.quality == quality && settings.concurrent_downloads == concurrent
                && settings.selected_index == 0),
            final(self).should_quit == old(self).should_quit,
            App::same_widgets(old(self), final(self)),
    {
        match &self.state {
            AppState::Help { .. } => {},
            AppState::Settings { .. } => {},
            _ => {
                let mut taken = App::fresh_url_input_state();
                core::mem::swap(&mut self.state, &mut taken);
                self.state = AppState::Settings {
                    settings: SettingsState::new(output_dir, quality, concurrent),
                    previous_state: Box::new(taken),
                };
            },
        }
    }

    /// Closes an overlay, restoring exactly the state it was opened
    /// from.
    pub fn back_from_overlay(&mut self)
        requires
            old(self).wf(),
        ensures
            final(self).wf(),
            final(self).state == spec_back_from_overlay(old(self).state),
            final(self).should_quit == old(self).should_quit,
            App::same_widgets(old(self), final(self)),
    {
        let is_over = matches!(self.state, AppState::Help { .. } | AppState::Settings { .. });
        if is_over {
            let mut taken = App::fresh_url_input_state();
            core::mem::swap(&mut self.state, &mut taken);
            match taken {
                AppState::Help { previous_state } => {
                    self.state = *previous_state;
                },
                AppState::Settings { previous_state, .. } => {
                    self.state = *previous_state;
                },
                _ => {
                    assert(false);
                },
            }
        }
    }

    /// Moves the settings selection one row down, clamped.
    pub fn select_next_setting(&mut self)
        requires
            old(self).wf(),
        ensures
            final(self).wf(),
            final(self).state == spec_select_next_setting(old(self).state),
            final(self).should_quit == old(self).should_quit,
            App::same_widgets(old(self), final(self)),
    {
        if let AppState::Settings { settings, .. } = &mut self.state {
            if settings.selected_index < 4 {
                settings.selected_index = settings.selected_index + 1;
            }
        }
    }

    /// Moves the settings selection one row up, clamped.
    pub fn select_previous_setting(&mut self)
        requires
            old(self).wf(),
        ensures
            final(self).wf(),
            final(self).state == spec_select_previous_setting(old(self).state),
            final(self).should_quit == old(self).should_quit,
            App::same_widgets(old(self), final(self)),
    {
        if let AppState::Settings { settings, .. } = &mut self.state {
            if settings.selected_index > 0 {
                settings.selected_index = settings.selected_index - 1;
            }
        }
    }

    /// Replaces the input buffer and cursor, re-running the live
    /// shape check; does nothing outside the input state.
    pub fn update_input(&mut self, input: String, cursor_pos: usize)
        requires
            old(self).wf(),
        ensures
            final(self).wf(),
            old(self).state matches AppState::UrlInput { recent_downloads, .. } ==> is_updated_input(
                final(self).state,
                input@,
                cursor_pos as int,
                recent_downloads@,
            ),
            !(old(self).state is UrlInput) ==> final(self).state == old(self).state,
            final(self).should_quit == old(self).should_quit,
            App::same_widgets(old(self), final(self)),
    {
        let looks_valid = contains_str(input.as_str(), "youtube.com") || contains_str(
            input.as_str(),
            "youtu.be",
        );
        let empty = input.as_str().is_empty();
        if let AppState::UrlInput {
            input: i,
            cursor_pos: c,
            is_valid,
            validation_message,
            ..
        } = &mut self.state {
            *i = input;
            *c = cursor_pos;
            if empty {
                *is_valid = None;
                *validation_message = "Paste a YouTube URL or press Ctrl+V".to_owned();
            } else if looks_valid {
                *is_valid = Some(true);
                *validation_message = "Valid YouTube URL".to_owned();
            } else {
                *is_valid = Some(false);
                *validation_message = "Invalid YouTube URL".to_owned();
            }
        }
    }

    /// Moves to the fetching screen for `url`.
    pub fn start_fetching_info(&mut self, url: String)
        ensures
            final(self).state matches AppState::FetchingInfo { url: u } && u == url,
            state_wf(final(self).state),
            final(self).should_quit == old(self).should_quit,
            App::same_widgets(old(self), final(self)),
    {
        self.state = AppState::FetchingInfo { url };
    }

    /// Shows the fetched metadata and formats, the first row selected.
    pub fn show_format_selection(
        &mut self,
        url: String,
        video_info: VideoInfo,
        formats: Vec<FormatOption>,
    )
        ensures
            final(self).state matches AppState::FormatSelection {
                url: u,
                video_info: v,
                formats: f,
                selected_index,
            } && u == url && v == video_info && f == formats && selected_index == 0,
            state_wf(final(self).state),
            final(self).should_quit == old(self).should_quit,
            App::same_widgets(old(self), final(self)),
    {
        self.state = AppState::FormatSelection { url, video_info, formats, selected_index: 0 };
    }

    /// Moves the format selection one row down, clamped to the last
    /// row: `Down` on the last valid row changes nothing.
    pub fn select_next_format(&mut self)
        requires
            old(self).wf(),
        ensures
            final(self).wf(),
            final(self).state == spec_select_next_format(old(self).state),
            final(self).should_quit == old(self).should_quit,
            App::same_widgets(old(self), final(self)),
    {
        if let AppState::FormatSelection { selected_index, formats, .. } = &mut self.state {
            let len = formats.len();
            if len > 0 && *selected_index < len - 1 {
                *selected_index = *selected_index + 1;
            }
        }
    }

    /// Moves the format selection one row up, clamped to the first.
    pub fn select_previous_format(&mut self)
        requires
            old(self).wf(),
        ensures
            final(self).wf(),
            final(self).state == spec_select_previous_format(old(self).state),
            final(self).should_quit == old(self).should_quit,
            App::same_widgets(old(self), final(self)),
    {
        if let AppState::FormatSelection { selected_index, .. } = &mut self.state {
            if *selected_index > 0 {
                *selected_index = *selected_index - 1;
            }
        }
    }

    /// Fixes the selected format and moves to `Downloading` with
    /// zeroed progress; outside a format selection with a valid row,
    /// nothing happens.
    pub fn start_download(&mut self)
        requires
            old(self).wf(),
        ensures
            final(self).wf(),
            final(self).state == spec_start_download(old(self).state),
            final(self).should_quit == old(self).should_quit,
            App::same_widgets(old(self), final(self)),
    {
        let do_start = match &self.state {
            AppState::FormatSelection { selected_index, formats, .. } => *selected_index
                < formats.len(),
            _ => false,
        };
        if do_start {
            let mut taken = App::fresh_url_input_state();
            core::mem::swap(&mut self.state, &mut taken);
            match taken {
                AppState::FormatSelection { url, video_info, formats, selected_index } => {
                    let format = formats[selected_index].clone();
                    self.state = AppState::Downloading {
                        url,
                        video_info,
                        format,
                        progress: DownloadProgress {
                            percent_hundredths: 0,
                            downloaded_bytes: 0,
                            total_bytes: 0,
                            speed_bytes_per_sec: 0,
                            eta_seconds: None,
                            elapsed_seconds: 0,
                        },
                    };
                },
                _ => {
                    assert(false);
                },
            }
        }
    }

    /// Applies a progress sample to the running download. An update
    /// that arrives after the session has left `Downloading` — the
    /// user interrupted, the download resolved — changes nothing.
    pub fn update_progress(&mut self, progress: DownloadProgress)
        requires
            old(self).wf(),
        ensures
            final(self).wf(),
            final(self).state == spec_update_progress(old(self).state, progress),
            final(self).should_quit == old(self).should_quit,
            App::same_widgets(old(self), final(self)),
    {
        if let AppState::Downloading { progress: p, .. } = &mut self.state {
            *p = progress;
        }
    }

    /// Moves to the success screen.
    pub fn download_complete(&mut self, info: DownloadSuccess)
        ensures
            final(self).state matches AppState::Success { info: i } && i == info,
            state_wf(final(self).state),
            final(self).should_quit == old(self).should_quit,
            App::same_widgets(old(self), final(self)),
    {
        self.state = AppState::Success { info };
    }
}

impl Default for App {
    /// A fresh session.
    fn default() -> (r: App)
        ensures
            r.wf(),
            is_fresh_url_input(r.state),
            !r.should_quit,
    {
        App::new()
    }
}

// ---------------------------------------------------------------------------
// Laws of the state machine
// ---------------------------------------------------------------------------
/// Clamping at the bottom: `Down` on the last valid row of a format
/// selection leaves the selection exactly where it was.
pub proof fn lemma_select_next_format_clamped(s: AppState)
    requires
        s matches AppState::FormatSelection { formats, selected_index, .. } && formats@.len() > 0
            && selected_index == formats@.len() - 1,
    ensures
        spec_select_next_format(s) == s,
{
}

/// A late progress update is discarded: once the session has left
/// `Downloading` — for instance the interrupt key reset it to the
/// input state — an arriving sample changes nothing at all.
pub proof fn lemma_progress_update_after_leaving_ignored(s: AppState, p: DownloadProgress)
    requires
        !(s is Downloading),
    ensures
        spec_update_progress(s, p) == s,
{
}

} // verus!
