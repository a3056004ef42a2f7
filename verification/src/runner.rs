//! The session's event dispatch: what each event does to the state
//! machine, and which action the loop outside must perform in turn.
//!
//! Global keys run first: the quit keys end the session from any
//! state (except that Control-c during a download is the interrupt,
//! which resets to the input screen without killing the session), and
//! the help key opens the overlay anywhere but on the input screen,
//! where `h` and `?` are ordinary text, and inside an overlay. State
//! keys follow, as `state_key_transition` lays them out.

use vstd::prelude::*;
use vstd::string::StrSliceExecFns;
use vstd::string::StringExecFns;

use crate::app::{
    App, AppState, input_looks_valid, is_fresh_url_input, is_updated_input, spec_back_from_overlay,
    spec_select_next_format, spec_select_next_setting, spec_select_previous_format,
    spec_select_previous_setting, spec_start_download,
};
use crate::events::{spec_is_back_key, spec_is_quit_key, Event, KeyCode, KeyPress};
use crate::strutil::{contains_str, push_char};

verus! {

/// What the loop outside must do after an event: nothing, fetch
/// metadata for a URL, or spawn a background download.
#[derive(Debug)]
pub enum Action {
    Idle,
    FetchInfo { url: String },
    SpawnDownload { url: String, audio_only: bool },
}

/// Whether a key press asks for the help overlay: a plain `h` or `?`.
pub open spec fn spec_is_help_key(key: KeyPress) -> bool {
    !key.ctrl && (key.code == KeyCode::Char('h') || key.code == KeyCode::Char('?'))
}

/// `s` with `c` inserted at character position `pos`.
pub open spec fn insert_char(s: Seq<char>, pos: int, c: char) -> Seq<char> {
    s.subrange(0, pos) + seq![c] + s.subrange(pos, s.len() as int)
}

/// `s` without the character at position `pos`.
pub open spec fn remove_char(s: Seq<char>, pos: int) -> Seq<char> {
    s.subrange(0, pos) + s.subrange(pos + 1, s.len() as int)
}

/// What the state-specific keys do, state by state. `post` is the
/// state after the key, `action` what the loop must perform.
pub open spec fn state_key_transition(
    pre: AppState,
    key: KeyPress,
    post: AppState,
    action: Action,
) -> bool {
    match pre {
        AppState::UrlInput { ref input, cursor_pos, ref recent_downloads, .. } => {
            match key.code {
                KeyCode::Char(c) => {
                    if !key.ctrl {
                        &&& action is Idle
                        &&& if cursor_pos <= input@.len() && cursor_pos < usize::MAX {
                            is_updated_input(
                                post,
                                insert_char(input@, cursor_pos as int, c),
                                cursor_pos + 1,
                                recent_downloads@,
                            )
                        } else {
                            post == pre
                        }
                    } else if c == 'u' {
                        action is Idle && is_updated_input(
                            post,
                            Seq::empty(),
                            0,
                            recent_downloads@,
                        )
                    } else {
                        post == pre && action is Idle
                    }
                },
                KeyCode::Backspace => {
                    &&& action is Idle
                    &&& if 0 < cursor_pos <= input@.len() {
                        is_updated_input(
                            post,
                            remove_char(input@, cursor_pos - 1),
                            cursor_pos - 1,
                            recent_downloads@,
                        )
                    } else {
                        post == pre
                    }
                },
                KeyCode::Enter => {
                    if input_looks_valid(input@) {
                        &&& post matches AppState::FetchingInfo { url } && url@ == input@
                        &&& action matches Action::FetchInfo { url } && url@ == input@
                    } else {
                        post == pre && action is Idle
                    }
                },
                _ => post == pre && action is Idle,
            }
        },
        AppState::FetchingInfo { .. } => {
            if spec_is_back_key(key) {
                is_fresh_url_input(post) && action is Idle
            } else {
                post == pre && action is Idle
            }
        },
        AppState::FormatSelection { ref url, ref formats, selected_index, .. } => {
            if key.code is Up {
                post == spec_select_previous_format(pre) && action is Idle
            } else if key.code is Down {
                post == spec_select_next_format(pre) && action is Idle
            } else if key.code is Enter {
                &&& post == spec_start_download(pre)
                &&& if selected_index < formats@.len() {
                    action matches Action::SpawnDownload { url: u, audio_only } && u@ == url@
                        && audio_only == (formats@[selected_index as int].format_id@ == "audio"@)
                } else {
                    action is Idle
                }
            } else if (key.code == KeyCode::Char('a') || key.code == KeyCode::Char('A'))
                && !key.ctrl {
                &&& post == spec_start_download(pre)
                &&& if selected_index < formats@.len() {
                    action matches Action::SpawnDownload { url: u, audio_only } && u@ == url@
                        && audio_only
                } else {
                    action is Idle
                }
            } else if spec_is_back_key(key) {
                is_fresh_url_input(post) && action is Idle
            } else {
                post == pre && action is Idle
            }
        },
        AppState::Downloading { .. } => {
            if key.code == KeyCode::Char('c') && key.ctrl {
                is_fresh_url_input(post) && action is Idle
            } else {
                post == pre && action is Idle
            }
        },
        AppState::Success { .. } => {
            if (key.code == KeyCode::Char('n') || key.code == KeyCode::Char('N')) && !key.ctrl {
                is_fresh_url_input(post) && action is Idle
            } else {
                post == pre && action is Idle
            }
        },
        AppState::Error { .. } => {
            if (key.code == KeyCode::Char('n') || key.code == KeyCode::Char('N') || key.code
                == KeyCode::Char('r') || key.code == KeyCode::Char('R')) && !key.ctrl {
                is_fresh_url_input(post) && action is Idle
            } else {
                post == pre && action is Idle
            }
        },
        AppState::Help { .. } => {
            if spec_is_back_key(key) {
                post == spec_back_from_overlay(pre) && action is Idle
            } else {
                post == pre && action is Idle
            }
        },
        AppState::Settings { .. } => {
            if key.code is Up {
                post == spec_select_previous_setting(pre) && action is Idle
            } else if key.code is Down {
                post == spec_select_next_setting(pre) && action is Idle
            } else if spec_is_back_key(key) {
                post == spec_back_from_overlay(pre) && action is Idle
            } else {
                post == pre && action is Idle
            }
        },
    }
}

/// The whole key dispatch: quit and help first, then the state keys.
pub open spec fn key_transition(pre: &App, key: KeyPress, post: &App, action: Action) -> bool {
    &&& App::same_widgets(pre, post)
    &&& if spec_is_quit_key(key) && !(key.ctrl && pre.state is Downloading) {
        post.state == pre.state && post.should_quit && action is Idle
    } else if spec_is_help_key(key) && !(pre.state is Help) && !(pre.state is Settings) && !(
    pre.state is UrlInput) {
        &&& (post.state matches AppState::Help { previous_state } && *previous_state == pre.state)
        &&& post.should_quit == pre.should_quit
        &&& action is Idle
    } else {
        &&& post.should_quit == pre.should_quit
        &&& state_key_transition(pre.state, key, post.state, action)
    }
}

fn insert_char_at(s: &str, pos: usize, c: char) -> (r: String)
    requires
        pos <= s@.len(),
    ensures
        r@ == insert_char(s@, pos as int, c),
{
    let n = s.unicode_len();
    let mut out = s.substring_char(0, pos).to_owned();
    push_char(&mut out, c);
    out.append(s.substring_char(pos, n));
    out
}

fn remove_char_at(s: &str, pos: usize) -> (r: String)
    requires
        pos < s@.len(),
    ensures
        r@ == remove_char(s@, pos as int),
{
    let n = s.unicode_len();
    let mut out = s.substring_char(0, pos).to_owned();
    out.append(s.substring_char(pos + 1, n));
    out
}

/// Applies one key press to the session and hands back what the loop
/// must do: exactly the transition `key_transition` lays out.
pub fn handle_key(app: &mut App, key: KeyPress) -> (action: Action)
    requires
        old(app).wf(),
    ensures
        final(app).wf(),
        key_transition(old(app), key, final(app), action),
{
    // Global quit keys; Control-c during a download is the interrupt
    // instead and is handled below.
    let is_downloading = matches!(app.state, AppState::Downloading { .. });
    if crate::events::is_quit_key(key) && !(key.ctrl && is_downloading) {
        app.quit();
        return Action::Idle;
    }
    // Global help key, suppressed on the input screen (where the user
    // is typing) and inside the overlays themselves.
    let is_help = !key.ctrl && matches!(key.code, KeyCode::Char('h') | KeyCode::Char('?'));
    let suppressed = matches!(
        app.state,
        AppState::Help { .. } | AppState::Settings { .. } | AppState::UrlInput { .. },
    );
    if is_help && !suppressed {
        app.go_to_help();
        return Action::Idle;
    }
    match &app.state {
        AppState::UrlInput { input, cursor_pos, .. } => {
            match key.code {
                KeyCode::Char(c) if !key.ctrl => {
                    let n = input.as_str().unicode_len();
                    let cp = *cursor_pos;
                    if cp <= n && cp < usize::MAX {
                        let new_input = insert_char_at(input.as_str(), cp, c);
                        app.update_input(new_input, cp + 1);
                    }
                    Action::Idle
                },
                KeyCode::Char(c) if key.ctrl && c == 'u' => {
                    app.update_input(String::new(), 0);
                    Action::Idle
                },
                KeyCode::Backspace => {
                    let n = input.as_str().unicode_len();
                    let cp = *cursor_pos;
                    if 0 < cp && cp <= n {
                        let new_input = remove_char_at(input.as_str(), cp - 1);
                        app.update_input(new_input, cp - 1);
                    }
                    Action::Idle
                },
                KeyCode::Enter => {
                    let looks_valid = contains_str(input.as_str(), "youtube.com") || contains_str(
                        input.as_str(),
                        "youtu.be",
                    );
                    if looks_valid {
                        let url = input.clone();
                        let url2 = input.clone();
                        app.start_fetching_info(url);
                        Action::FetchInfo { url: url2 }
                    } else {
                        Action::Idle
                    }
                },
                _ => Action::Idle,
            }
        },
        AppState::FetchingInfo { .. } => {
            if crate::events::is_back_key(key) {
                app.go_to_url_input();
            }
            Action::Idle
        },
        AppState::FormatSelection { url, formats, selected_index, .. } => {
            match key.code {
                KeyCode::Up => {
                    app.select_previous_format();
                    Action::Idle
                },
                KeyCode::Down => {
                    app.select_next_format();
                    Action::Idle
                },
                KeyCode::Enter => {
                    if *selected_index < formats.len() {
                        let url_clone = url.clone();
                        let audio_only = crate::strutil::str_eq(
                            formats[*selected_index].format_id.as_str(),
                            "audio",
                        );
                        app.start_download();
                        Action::SpawnDownload { url: url_clone, audio_only }
                    } else {
                        app.start_download();
                        Action::Idle
                    }
                },
                KeyCode::Char(c) if !key.ctrl && (c == 'a' || c == 'A') => {
                    if *selected_index < formats.len() {
                        let url_clone = url.clone();
                        app.start_download();
                        Action::SpawnDownload { url: url_clone, audio_only: true }
                    } else {
                        app.start_download();
                        Action::Idle
                    }
                },
                KeyCode::Esc => {
                    app.go_to_url_input();
                    Action::Idle
                },
                _ => Action::Idle,
            }
        },
        AppState::Downloading { .. } => {
            if key.ctrl && matches!(key.code, KeyCode::Char('c')) {
                app.go_to_url_input();
            }
            Action::Idle
        },
        AppState::Success { .. } => {
            if !key.ctrl && matches!(key.code, KeyCode::Char('n') | KeyCode::Char('N')) {
                app.go_to_url_input();
            }
            Action::Idle
        },
        AppState::Error { .. } => {
            if !key.ctrl && matches!(
                key.code,
                KeyCode::Char('n') | KeyCode::Char('N') | KeyCode::Char('r') | KeyCode::Char('R'),
            ) {
                app.go_to_url_input();
            }
            Action::Idle
        },
        AppState::Help { .. } => {
            if crate::events::is_back_key(key) {
                app.back_from_overlay();
            }
            Action::Idle
        },
        AppState::Settings { .. } => {
            match key.code {
                KeyCode::Up => {
                    app.select_previous_setting();
                },
                KeyCode::Down => {
                    app.select_next_setting();
                },
                KeyCode::Esc => {
                    app.back_from_overlay();
                },
                _ => {},
            }
            Action::Idle
        },
    }
}

/// Applies one event of the session loop: key presses dispatch
/// through `handle_key`, pasted text lands in the input buffer at the
/// cursor, ticks advance the animations, and a resize changes nothing
/// (the next render redraws).
pub fn handle_event(app: &mut App, event: Event) -> (action: Action)
    requires
        old(app).wf(),
    ensures
        final(app).wf(),
        match event {
            Event::Key(key) => key_transition(old(app), key, final(app), action),
            Event::Paste(text) => {
                &&& action is Idle
                &&& final(app).should_quit == old(app).should_quit
                &&& App::same_widgets(old(app), final(app))
                &&& match old(app).state {
                    AppState::UrlInput { input, cursor_pos, recent_downloads, .. } => {
                        if cursor_pos <= input@.len() && input@.len() + text@.len() < usize::MAX {
                            is_updated_input(
                                final(app).state,
                                input@.subrange(0, cursor_pos as int) + text@ + input@.subrange(
                                    cursor_pos as int,
                                    input@.len() as int,
                                ),
                                cursor_pos + text@.len(),
                                recent_downloads@,
                            )
                        } else {
                            final(app).state == old(app).state
                        }
                    },
                    _ => final(app).state == old(app).state,
                }
            },
            Event::Resize(_, _) => {
                &&& action is Idle
                &&& final(app).state == old(app).state
                &&& final(app).should_quit == old(app).should_quit
                &&& App::same_widgets(old(app), final(app))
            },
            Event::Tick => {
                &&& action is Idle
                &&& final(app).state == old(app).state
                &&& final(app).should_quit == old(app).should_quit
            },
        },
{
    match event {
        Event::Key(key) => handle_key(app, key),
        Event::Paste(text) => {
            if let AppState::UrlInput { input, cursor_pos, .. } = &app.state {
                let n = input.as_str().unicode_len();
                let m = text.as_str().unicode_len();
                let cp = *cursor_pos;
                if cp <= n && m < usize::MAX - n {
                    let mut new_input = input.as_str().substring_char(0, cp).to_owned();
                    new_input.append(text.as_str());
                    new_input.append(input.as_str().substring_char(cp, n));
                    app.update_input(new_input, cp + m);
                }
            }
            Action::Idle
        },
        Event::Resize(_, _) => Action::Idle,
        Event::Tick => {
            app.tick();
            Action::Idle
        },
    }
}

} // verus!
