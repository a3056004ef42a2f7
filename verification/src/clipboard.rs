//! The clipboard watcher's decisions. Reading the clipboard itself
//! happens outside the crate, which hands each reading in as text.

use vstd::prelude::*;
use vstd::string::StrSliceExecFns;

use crate::strutil::{spec_trim, str_eq, trim_str};
use crate::utils::{spec_is_youtube_url, validate_youtube_url};

verus! {

/// The URL a clipboard reading carries, if any: the trimmed text when
/// it is a well-formed video URL.
pub open spec fn spec_clipboard_url(text: Seq<char>) -> Option<Seq<char>> {
    if spec_is_youtube_url(spec_trim(text)) {
        Some(spec_trim(text))
    } else {
        None
    }
}

/// Extracts a well-formed video URL from one clipboard reading.
pub fn clipboard_url(text: &str) -> (r: Option<String>)
    ensures
        match r {
            Option::Some(u) => spec_clipboard_url(text@) == Some(u@),
            Option::None => spec_clipboard_url(text@) is None,
        },
{
    let t = trim_str(text);
    match validate_youtube_url(t) {
        Result::Ok(()) => Some(t.to_owned()),
        Result::Err(_) => None,
    }
}

/// One step of the clipboard watch loop: a new URL is reported only
/// when the reading changed since the last one and the changed text
/// is a well-formed video URL.
pub fn detect_new_url(last_content: &String, current: &String) -> (r: Option<String>)
    ensures
        match r {
            Option::Some(u) => current@ != last_content@ && spec_clipboard_url(current@) == Some(
                u@,
            ),
            Option::None => current@ == last_content@ || spec_clipboard_url(current@) is None,
        },
{
    if str_eq(current.as_str(), last_content.as_str()) {
        None
    } else {
        clipboard_url(current.as_str())
    }
}

} // verus!
