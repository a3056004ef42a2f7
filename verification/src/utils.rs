//! General-purpose formatting helpers.

use vstd::prelude::*;
use vstd::string::StrSliceExecFns;
use vstd::string::StringExecFns;

use crate::error::YtdlError;
use crate::strutil::spec_match_at;
use crate::strutil::match_at;
use crate::text::{dec_digits, dec_digits_pad2, push_decimal, push_decimal_pad2};

verus! {

/// A character the video and playlist identifiers are built from:
/// an ASCII letter, a digit, an underscore or a hyphen.
pub open spec fn is_id_char(c: char) -> bool {
    ('0' <= c && c <= '9') || ('a' <= c && c <= 'z') || ('A' <= c && c <= 'Z') || c == '_' || c
        == '-'
}

/// The length of the scheme prefix of `s`: 8 for `https://`, 7 for
/// `http://`, 0 when neither stands at the front.
pub open spec fn scheme_len(s: Seq<char>) -> int {
    if spec_match_at(s, 0, "https://"@) {
        8
    } else if spec_match_at(s, 0, "http://"@) {
        7
    } else {
        0
    }
}

/// Whether `p` stands at offset `h` of `s` and an identifier character
/// follows it.
pub open spec fn id_follows(s: Seq<char>, h: int, p: Seq<char>) -> bool {
    spec_match_at(s, h, p) && h + p.len() < s.len() && is_id_char(s[h + p.len()])
}

/// Whether `s` starts like one of the accepted video-site URL shapes:
/// a scheme, an optional `www.` host prefix, then a watch, short-link,
/// playlist or shorts path with a nonempty identifier. Anything may
/// follow the identifier's first character.
pub open spec fn spec_is_youtube_url(s: Seq<char>) -> bool {
    scheme_len(s) > 0 && {
        let sl = scheme_len(s);
        let h = if spec_match_at(s, sl, "www."@) {
            sl + 4
        } else {
            sl
        };
        ||| id_follows(s, h, "youtube.com/watch?v="@)
        ||| id_follows(s, h, "youtu.be/"@)
        ||| id_follows(s, h, "youtube.com/playlist?list="@)
        ||| id_follows(s, h, "youtube.com/shorts/"@)
    }
}

/// The message carried by the error for a rejected URL.
pub open spec fn spec_invalid_url_message(s: Seq<char>) -> Seq<char> {
    "Invalid YouTube URL. Expected formats:\n  - https://youtube.com/watch?v=VIDEO_ID\n  - https://youtu.be/VIDEO_ID\n  - https://youtube.com/playlist?list=PLAYLIST_ID\n  - https://youtube.com/shorts/VIDEO_ID\nGot: "@
        + s
}

pub fn char_is_id(c: char) -> (r: bool)
    ensures
        r == is_id_char(c),
{
    ('0' <= c && c <= '9') || ('a' <= c && c <= 'z') || ('A' <= c && c <= 'Z') || c == '_' || c
        == '-'
}

fn id_follows_exec(s: &str, h: usize, p: &str) -> (r: bool)
    ensures
        r == id_follows(s@, h as int, p@),
{
    if !match_at(s, h, p) {
        return false;
    }
    let pn = p.unicode_len();
    let n = s.unicode_len();
    if n - h > pn {
        char_is_id(s.get_char(h + pn))
    } else {
        false
    }
}

/// Accepts exactly the URL shapes of the supported video site: watch
/// pages, short links, playlists and shorts; everything else is an
/// `InvalidUrl` error carrying an explanatory message.
pub fn validate_youtube_url(url: &str) -> (r: Result<(), YtdlError>)
    ensures
        r is Ok <==> spec_is_youtube_url(url@),
        r matches Err(e) ==> e matches YtdlError::InvalidUrl(m) && m@ == spec_invalid_url_message(
            url@,
        ),
{
    let sl: usize = if match_at(url, 0, "https://") {
        8
    } else if match_at(url, 0, "http://") {
        7
    } else {
        0
    };
    let ok = if sl == 0 {
        false
    } else {
        let h = if match_at(url, sl, "www.") {
            sl + 4
        } else {
            sl
        };
        id_follows_exec(url, h, "youtube.com/watch?v=") || id_follows_exec(url, h, "youtu.be/")
            || id_follows_exec(url, h, "youtube.com/playlist?list=") || id_follows_exec(
            url,
            h,
            "youtube.com/shorts/",
        )
    };
    if ok {
        Ok(())
    } else {
        let mut m =
            "Invalid YouTube URL. Expected formats:\n  - https://youtube.com/watch?v=VIDEO_ID\n  - https://youtu.be/VIDEO_ID\n  - https://youtube.com/playlist?list=PLAYLIST_ID\n  - https://youtube.com/shorts/VIDEO_ID\nGot: ".to_owned();
        m.append(url);
        Err(YtdlError::InvalidUrl(m))
    }
}

/// `bytes` scaled by `100 / den`, rounded half-up: the whole quotient
/// in hundredths of the chosen unit.
pub open spec fn scaled_hundredths(bytes: nat, den: nat) -> nat
    recommends
        den > 0,
{
    (bytes / den) * 100 + ((bytes % den) * 100 + den / 2) / den
}

/// The unit suffix for each scaling step: 1024^0 up to 1024^4.
pub open spec fn byte_unit_chars(k: int) -> Seq<char> {
    if k == 0 {
        "B"@
    } else if k == 1 {
        "KB"@
    } else if k == 2 {
        "MB"@
    } else if k == 3 {
        "GB"@
    } else {
        "TB"@
    }
}

/// The scaling step for a byte count: the largest power of 1024 (at
/// most the fourth) that does not exceed it.
pub open spec fn byte_unit_index(bytes: nat) -> int {
    if bytes >= 0x100_0000_0000 {
        4
    } else if bytes >= 0x4000_0000 {
        3
    } else if bytes >= 0x10_0000 {
        2
    } else if bytes >= 0x400 {
        1
    } else {
        0
    }
}

/// `pow1024(k)` is 1024 raised to `k`, for the small exponents used here.
pub open spec fn pow1024(k: int) -> nat {
    if k == 0 {
        1
    } else if k == 1 {
        0x400
    } else if k == 2 {
        0x10_0000
    } else if k == 3 {
        0x4000_0000
    } else {
        0x100_0000_0000
    }
}

/// What `format_bytes` returns: the byte count scaled to its unit,
/// shown with two decimal places, a space and the unit suffix.
pub open spec fn spec_format_bytes(bytes: nat) -> Seq<char> {
    let k = byte_unit_index(bytes);
    let v = scaled_hundredths(bytes, pow1024(k));
    dec_digits(v / 100) + "."@ + dec_digits_pad2(v % 100) + " "@ + byte_unit_chars(k)
}

/// Renders the hundredths value `v` as "<whole>.<two decimals>".
fn push_hundredths(s: &mut String, v: u64)
    ensures
        final(s)@ == old(s)@ + dec_digits((v / 100) as nat) + "."@ + dec_digits_pad2(
            (v % 100) as nat,
        ),
{
    push_decimal(s, v / 100);
    s.append(".");
    push_decimal_pad2(s, v % 100);
}

/// Formats a byte count in binary units (1024-based), with two decimal
/// places, e.g. 1024 bytes as "1.00 KB".
pub fn format_bytes(bytes: u64) -> (r: String)
    ensures
        r@ == spec_format_bytes(bytes as nat),
{
    let (den, unit): (u64, &'static str) = if bytes >= 0x100_0000_0000 {
        (0x100_0000_0000, "TB")
    } else if bytes >= 0x4000_0000 {
        (0x4000_0000, "GB")
    } else if bytes >= 0x10_0000 {
        (0x10_0000, "MB")
    } else if bytes >= 0x400 {
        (0x400, "KB")
    } else {
        (1, "B")
    };
    let q = bytes / den;
    let rem = bytes % den;
    assert(q <= 0x100_0000) by (nonlinear_arith)
        requires
            q == bytes / den,
            den >= 1,
            bytes <= u64::MAX,
            den != 0x100_0000_0000 ==> bytes < den * 0x400,
            den == 0x100_0000_0000 ==> q == bytes / 0x100_0000_0000,
    ;
    let t = rem * 100 + den / 2;
    let u = t / den;
    assert(u <= 100) by (nonlinear_arith)
        requires
            den >= 1,
            t < den * 101,
            u == t / den,
    ;
    let v = q * 100 + u;
    let mut s = String::new();
    push_hundredths(&mut s, v);
    s.append(" ");
    s.append(unit);
    proof {
        assert(s@ =~= spec_format_bytes(bytes as nat));
    }
    s
}

/// What `format_duration` returns: `MM:SS`, or `HH:MM:SS` once a full
/// hour is reached, each part zero-padded to two digits.
pub open spec fn spec_format_duration(seconds: nat) -> Seq<char> {
    let h = seconds / 3600;
    let m = (seconds % 3600) / 60;
    let s = seconds % 60;
    if h > 0 {
        dec_digits_pad2(h) + ":"@ + dec_digits_pad2(m) + ":"@ + dec_digits_pad2(s)
    } else {
        dec_digits_pad2(m) + ":"@ + dec_digits_pad2(s)
    }
}

/// Formats a duration of whole seconds as "MM:SS", adding an hours
/// part once the duration reaches one hour.
pub fn format_duration(seconds: u64) -> (r: String)
    ensures
        r@ == spec_format_duration(seconds as nat),
{
    let hours = seconds / 3600;
    let minutes = (seconds % 3600) / 60;
    let secs = seconds % 60;
    let mut s = String::new();
    if hours > 0 {
        push_decimal_pad2(&mut s, hours);
        s.append(":");
    }
    push_decimal_pad2(&mut s, minutes);
    s.append(":");
    push_decimal_pad2(&mut s, secs);
    proof {
        assert(s@ =~= spec_format_duration(seconds as nat));
    }
    s
}

} // verus!
