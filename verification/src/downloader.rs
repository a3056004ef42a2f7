//! The process driver's pure parts: the argument vector handed to the
//! external tool, the reading of its metadata output, the verdict on
//! its exit, and the artifact-location heuristic. Spawning the tool
//! and draining its streams happens outside the crate.

use vstd::prelude::*;
use vstd::string::StrSliceExecFns;
use vstd::string::StringExecFns;

use crate::error::YtdlError;
use crate::json::{
    get_str_opt, get_str_or, get_u64_opt, json_as_array, json_from_str, json_get, json_parses,
};
use crate::strutil::{spec_match_at, str_eq};
use crate::text::{dec_digits, dec_digits_pad2, push_decimal, push_decimal_pad2};

verus! {

/// One download format the external tool offers.
#[derive(Debug)]
pub struct Format {
    pub format_id: String,
    pub ext: String,
    pub resolution: Option<String>,
    pub fps: Option<u32>,
    pub filesize: Option<u64>,
    pub vcodec: Option<String>,
    pub acodec: Option<String>,
}

/// What the metadata fetch returns for one video.
#[derive(Debug)]
pub struct VideoMetadata {
    pub id: String,
    pub title: String,
    pub uploader: String,
    pub duration: Option<u64>,
    pub view_count: Option<u64>,
    pub upload_date: Option<String>,
    pub description: Option<String>,
    pub thumbnail: Option<String>,
    pub formats: Vec<Format>,
}

/// `n` in decimal with a comma between every group of three digits.
pub open spec fn grouped_digits(n: nat) -> Seq<char>
    decreases n,
{
    if n < 1000 {
        dec_digits(n)
    } else {
        grouped_digits(n / 1000) + ","@ + dec_digits_pad3(n % 1000)
    }
}

/// The decimal representation of `n`, zero-padded to three digits.
pub open spec fn dec_digits_pad3(n: nat) -> Seq<char> {
    if n < 10 {
        seq!['0'] + seq!['0'] + dec_digits(n)
    } else if n < 100 {
        seq!['0'] + dec_digits(n)
    } else {
        dec_digits(n)
    }
}

fn push_decimal_pad3(s: &mut String, n: u64)
    requires
        n < 1000,
    ensures
        final(s)@ == old(s)@ + dec_digits_pad3(n as nat),
{
    if n < 10 {
        s.append("0");
        s.append("0");
        push_decimal(s, n);
    } else if n < 100 {
        s.append("0");
        push_decimal(s, n);
    } else {
        push_decimal(s, n);
    }
    proof {
        reveal_strlit("0");
        assert(("0")@ =~= seq!['0']);
        assert(final(s)@ =~= old(s)@ + dec_digits_pad3(n as nat));
    }
}

fn push_grouped(s: &mut String, n: u64)
    ensures
        final(s)@ == old(s)@ + grouped_digits(n as nat),
    decreases n,
{
    if n < 1000 {
        push_decimal(s, n);
    } else {
        push_grouped(s, n / 1000);
        s.append(",");
        push_decimal_pad3(s, n % 1000);
    }
}

/// A view count with thousands separators, e.g. 1234567 as
/// "1,234,567".
pub fn format_view_count(n: u64) -> (r: String)
    ensures
        r@ == grouped_digits(n as nat),
{
    let mut s = String::new();
    push_grouped(&mut s, n);
    proof {
        assert(s@ =~= grouped_digits(n as nat));
    }
    s
}

/// A duration in whole seconds shown as "M:SS".
pub open spec fn spec_minutes_seconds(dur: nat) -> Seq<char> {
    dec_digits(dur / 60) + ":"@ + dec_digits_pad2(dur % 60)
}

impl VideoMetadata {
    /// The display form the interactive session shows: the duration
    /// as minutes and seconds (or "Unknown"), the view count with
    /// thousands separators.
    pub fn to_display_info(&self) -> (r: crate::app::VideoInfo)
        ensures
            r.title@ == self.title@,
            r.uploader@ == self.uploader@,
            match self.duration {
                Option::Some(dur) => r.duration@ == spec_minutes_seconds(dur as nat),
                Option::None => r.duration@ == "Unknown"@,
            },
            match self.view_count {
                Option::Some(v) => r.view_count matches Some(c) && c@ == grouped_digits(v as nat),
                Option::None => r.view_count is None,
            },
            match &self.upload_date {
                Option::Some(d) => r.upload_date matches Some(u) && u@ == d@,
                Option::None => r.upload_date is None,
            },
    {
        let duration = match self.duration {
            Option::Some(dur) => {
                let mut s = String::new();
                push_decimal(&mut s, dur / 60);
                s.append(":");
                push_decimal_pad2(&mut s, dur % 60);
                proof {
                    assert(s@ =~= spec_minutes_seconds(dur as nat));
                }
                s
            },
            Option::None => "Unknown".to_owned(),
        };
        let view_count = match self.view_count {
            Option::Some(v) => Some(format_view_count(v)),
            Option::None => None,
        };
        let upload_date = match &self.upload_date {
            Option::Some(d) => Some(d.clone()),
            Option::None => None,
        };
        crate::app::VideoInfo {
            title: self.title.clone(),
            uploader: self.uploader.clone(),
            duration,
            view_count,
            upload_date,
        }
    }
}

/// Reads one video's metadata out of the external tool's JSON dump.
/// Succeeds exactly when the text parses as JSON; missing fields get
/// their documented fallbacks, and a format without an id or an
/// extension is dropped.
pub fn parse_video_metadata(json_text: &str) -> (r: Result<VideoMetadata, YtdlError>)
    ensures
        r is Ok <==> json_parses(json_text@),
        r matches Err(e) ==> e is JsonParse,
{
    let v = match json_from_str(json_text) {
        Result::Ok(v) => v,
        Result::Err(e) => {
            return Err(e);
        },
    };
    let mut formats: Vec<Format> = Vec::new();
    match json_get(&v, "formats") {
        Option::Some(formats_value) => {
            match json_as_array(formats_value) {
                Option::Some(arr) => {
                    let n = arr.len();
                    let mut k: usize = 0;
                    while k < n
                        invariant
                            n == arr@.len(),
                            k <= n,
                        decreases n - k,
                    {
                        let f = &arr[k];
                        let format_id = get_str_opt(f, "format_id");
                        let ext = get_str_opt(f, "ext");
                        match (format_id, ext) {
                            (Option::Some(format_id), Option::Some(ext)) => {
                                formats.push(
                                    Format {
                                        format_id,
                                        ext,
                                        resolution: get_str_opt(f, "resolution"),
                                        fps: match get_u64_opt(f, "fps") {
                                            Option::Some(x) => if x <= u32::MAX as u64 {
                                                Some(x as u32)
                                            } else {
                                                None
                                            },
                                            Option::None => None,
                                        },
                                        filesize: get_u64_opt(f, "filesize"),
                                        vcodec: get_str_opt(f, "vcodec"),
                                        acodec: get_str_opt(f, "acodec"),
                                    },
                                );
                            },
                            _ => {},
                        }
                        k = k + 1;
                    }
                },
                Option::None => {},
            }
        },
        Option::None => {},
    }
    Ok(
        VideoMetadata {
            id: get_str_or(&v, "id", "unknown"),
            title: get_str_or(&v, "title", "Unknown Title"),
            uploader: get_str_or(&v, "uploader", "Unknown"),
            duration: get_u64_opt(&v, "duration"),
            view_count: get_u64_opt(&v, "view_count"),
            upload_date: get_str_opt(&v, "upload_date"),
            description: get_str_opt(&v, "description"),
            thumbnail: get_str_opt(&v, "thumbnail"),
            formats,
        },
    )
}

/// The arguments the external tool is invoked with for one download:
/// the output template under `output_dir`, newline-separated progress
/// reporting, optionally the resume flag, then either audio
/// extraction to mp3 or a format selector built from `quality`
/// (`best` picks the best streams outright), and the URL last.
pub open spec fn spec_download_args(
    output_dir: Seq<char>,
    quality: Seq<char>,
    url: Seq<char>,
    audio_only: bool,
    continue_download: bool,
) -> Seq<Seq<char>> {
    let base = seq!["-o"@, output_dir + "/%(title)s.%(ext)s"@, "--progress"@, "--newline"@];
    let with_cont = if continue_download {
        base + seq!["--continue"@]
    } else {
        base
    };
    let with_fmt = if audio_only {
        with_cont + seq!["-x"@, "--audio-format"@, "mp3"@]
    } else if quality == "best"@ {
        with_cont + seq!["-f"@, "bestvideo+bestaudio/best"@]
    } else {
        with_cont + seq!["-f"@, "bestvideo[height<="@ + quality + "]+bestaudio/best"@]
    };
    with_fmt + seq![url]
}

/// The driver's identity: where it writes and which quality selector
/// it builds.
#[derive(Debug)]
pub struct Downloader {
    pub output_dir: String,
    pub quality: String,
}

impl Downloader {
    /// A driver writing to `output_dir` at `quality`.
    pub fn new(output_dir: String, quality: String) -> (r: Downloader)
        ensures
            r.output_dir == output_dir,
            r.quality == quality,
    {
        Downloader { output_dir, quality }
    }

    /// Builds the exact argument vector for one invocation.
    pub fn build_download_args(&self, url: &str, audio_only: bool, continue_download: bool) -> (r:
        Vec<String>)
        ensures
            r.deep_view() == spec_download_args(
                self.output_dir@,
                self.quality@,
                url@,
                audio_only,
                continue_download,
            ),
    {
        let mut args: Vec<String> = Vec::new();
        args.push("-o".to_owned());
        let mut template = self.output_dir.clone();
        template.append("/%(title)s.%(ext)s");
        args.push(template);
        args.push("--progress".to_owned());
        args.push("--newline".to_owned());
        if continue_download {
            args.push("--continue".to_owned());
        }
        if audio_only {
            args.push("-x".to_owned());
            args.push("--audio-format".to_owned());
            args.push("mp3".to_owned());
        } else if str_eq(self.quality.as_str(), "best") {
            args.push("-f".to_owned());
            args.push("bestvideo+bestaudio/best".to_owned());
        } else {
            args.push("-f".to_owned());
            let mut selector = "bestvideo[height<=".to_owned();
            selector.append(self.quality.as_str());
            selector.append("]+bestaudio/best");
            args.push(selector);
        }
        args.push(url.to_owned());
        proof {
            assert(args.deep_view() =~~= spec_download_args(
                self.output_dir@,
                self.quality@,
                url@,
                audio_only,
                continue_download,
            ));
        }
        args
    }
}

/// The height a resolution string names: the decimal number after the
/// first `x` of e.g. "1920x1080", or 0 when nothing readable follows
/// (more than ten digits, stray characters, no `x` at all).
pub open spec fn spec_resolution_height(res: Seq<char>) -> int {
    match first_x_pos(res, 0) {
        Option::None => 0,
        Option::Some(p) => {
            let rest_len = res.len() - (p + 1);
            if 1 <= rest_len <= 10 && all_digit_chars(res, p + 1, res.len() as int) {
                let v = char_digits_val(res, p + 1, res.len() as int);
                if v <= u32::MAX {
                    v
                } else {
                    0
                }
            } else {
                0
            }
        },
    }
}

/// The position of the first `x` in `s` at or after `i`.
pub open spec fn first_x_pos(s: Seq<char>, i: int) -> Option<int>
    decreases s.len() - i,
{
    if i < 0 || i >= s.len() {
        None
    } else if s[i] == 'x' {
        Some(i)
    } else {
        first_x_pos(s, i + 1)
    }
}

/// Whether every character of `s[i..j)` is a decimal digit.
pub open spec fn all_digit_chars(s: Seq<char>, i: int, j: int) -> bool {
    forall|k: int| i <= k < j ==> '0' <= #[trigger] s[k] <= '9'
}

/// The decimal value of the digit characters `s[i..j)`.
pub open spec fn char_digits_val(s: Seq<char>, i: int, j: int) -> int
    decreases j - i,
{
    if i < j {
        char_digits_val(s, i, j - 1) * 10 + if '0' <= s[j - 1] <= '9' {
            s[j - 1] as int - '0' as int
        } else {
            0
        }
    } else {
        0
    }
}

proof fn lemma_char_digits_val_bound(s: Seq<char>, i: int, j: int)
    requires
        i <= j,
    ensures
        0 <= char_digits_val(s, i, j) < crate::progress::pow10((j - i) as nat),
    decreases j - i,
{
    if i < j {
        lemma_char_digits_val_bound(s, i, j - 1);
    }
}

/// Reads the height out of a resolution string such as "1920x1080".
pub fn resolution_height(res: &str) -> (r: u32)
    ensures
        r as int == spec_resolution_height(res@),
{
    let n = res.unicode_len();
    let mut i: usize = 0;
    while i < n && res.get_char(i) != 'x'
        invariant
            n == res@.len(),
            i <= n,
            first_x_pos(res@, 0) == first_x_pos(res@, i as int),
        decreases n - i,
    {
        i = i + 1;
    }
    if i >= n {
        return 0;
    }
    let start = i + 1;
    if n - start < 1 || n - start > 10 {
        return 0;
    }
    let mut k = start;
    let mut acc: u64 = 0;
    proof {
        reveal_with_fuel(crate::progress::pow10, 11);
        lemma_char_digits_val_bound(res@, start as int, n as int);
    }
    while k < n
        invariant
            n == res@.len(),
            start <= k <= n,
            1 <= n - start <= 10,
            first_x_pos(res@, 0) == Some(start as int - 1),
            all_digit_chars(res@, start as int, k as int),
            acc as int == char_digits_val(res@, start as int, k as int),
            acc < 10000000000,
        decreases n - k,
    {
        proof {
            reveal_with_fuel(crate::progress::pow10, 11);
            lemma_char_digits_val_bound(res@, start as int, k + 1);
        }
        let c = res.get_char(k);
        if !('0' <= c && c <= '9') {
            assert(!all_digit_chars(res@, start as int, n as int)) by {
                assert(res@[k as int] == c);
            }
            return 0;
        }
        acc = acc * 10 + ((c as u32) as u64 - 48);
        k = k + 1;
    }
    if acc <= u32::MAX as u64 {
        acc as u32
    } else {
        0
    }
}

/// A format usable as a video row: it names a video codec other than
/// "none".
pub open spec fn has_video_codec(f: Format) -> bool {
    match f.vcodec {
        Option::Some(v) => v@ != "none"@,
        Option::None => false,
    }
}

/// The height of a format's resolution, 0 when it names none.
pub open spec fn spec_format_height(f: Format) -> int {
    match f.resolution {
        Option::Some(r) => spec_resolution_height(r@),
        Option::None => 0,
    }
}

fn format_height(f: &Format) -> (r: u32)
    ensures
        r as int == spec_format_height(*f),
{
    match &f.resolution {
        Option::Some(res) => resolution_height(res.as_str()),
        Option::None => 0,
    }
}

/// A format's size in tenths of a megabyte (decimal), for the size
/// column: bytes divided by 100000, truncated.
pub open spec fn spec_size_tenths_mb(bytes: nat) -> nat {
    bytes / 100000
}

/// The size column's text: the file size as megabytes with one
/// decimal, e.g. "1.5 MB".
pub fn format_size_mb(bytes: u64) -> (r: String)
    ensures
        r@ == dec_digits(spec_size_tenths_mb(bytes as nat) / 10) + "."@ + dec_digits(
            spec_size_tenths_mb(bytes as nat) % 10,
        ) + " MB"@,
{
    let tenths = bytes / 100000;
    let mut s = String::new();
    push_decimal(&mut s, tenths / 10);
    s.append(".");
    push_decimal(&mut s, tenths % 10);
    s.append(" MB");
    proof {
        assert(s@ =~= dec_digits(spec_size_tenths_mb(bytes as nat) / 10) + "."@ + dec_digits(
            spec_size_tenths_mb(bytes as nat) % 10,
        ) + " MB"@);
    }
    s
}

/// The selectable rows the session offers for a video: the "Best
/// Quality" row, then the video formats — those with a real video
/// codec — sorted by height, tallest first, at most five of them,
/// and the audio-only row last.
pub fn build_format_options(metadata: &VideoMetadata) -> (r: Vec<crate::app::FormatOption>)
    ensures
        r@.len() >= 2,
        r@[0].format_id@ == "best"@,
        r@[r@.len() - 1].format_id@ == "audio"@,
        r@.len() <= 7,
{
    let mut rows: Vec<crate::app::FormatOption> = Vec::new();
    rows.push(
        crate::app::FormatOption {
            label: "Best Quality".to_owned(),
            resolution: "Auto".to_owned(),
            file_size: "Best available".to_owned(),
            format_id: "best".to_owned(),
        },
    );
    // Indices of the video formats, sorted by height, tallest first;
    // insertion keeps the first-seen order among equal heights.
    let n = metadata.formats.len();
    let mut picked: Vec<usize> = Vec::new();
    let mut k: usize = 0;
    while k < n
        invariant
            n == metadata.formats@.len(),
            k <= n,
            forall|a: int| 0 <= a < picked@.len() ==> #[trigger] picked@[a] < k,
            forall|a: int, b: int|
                0 <= a < b < picked@.len() ==> spec_format_height(
                    metadata.formats@[#[trigger] picked@[a] as int],
                ) >= spec_format_height(metadata.formats@[#[trigger] picked@[b] as int]),
        decreases n - k,
    {
        let f = &metadata.formats[k];
        let is_video = match &f.vcodec {
            Option::Some(v) => !str_eq(v.as_str(), "none"),
            Option::None => false,
        };
        if is_video {
            let h = format_height(f);
            let mut pos: usize = 0;
            while pos < picked.len() && format_height(&metadata.formats[picked[pos]]) >= h
                invariant
                    n == metadata.formats@.len(),
                    pos <= picked@.len(),
                    forall|a: int| 0 <= a < picked@.len() ==> #[trigger] picked@[a] < k < n,
                    h as int == spec_format_height(metadata.formats@[k as int]),
                    forall|a: int|
                        0 <= a < pos ==> spec_format_height(
                            metadata.formats@[#[trigger] picked@[a] as int],
                        ) >= h,
                    forall|a: int, b: int|
                        0 <= a < b < picked@.len() ==> spec_format_height(
                            metadata.formats@[#[trigger] picked@[a] as int],
                        ) >= spec_format_height(metadata.formats@[#[trigger] picked@[b] as int]),
                decreases picked@.len() - pos,
            {
                pos = pos + 1;
            }
            let ghost picked_old = picked@;
            picked.insert(pos, k);
            proof {
                picked_old.insert_ensures(pos as int, k);
                assert forall|a: int, b: int| 0 <= a < b < picked@.len() implies spec_format_height(
                    metadata.formats@[#[trigger] picked@[a] as int],
                ) >= spec_format_height(metadata.formats@[#[trigger] picked@[b] as int]) by {
                    let p = pos as int;
                    if b < p {
                    } else if b == p {
                        assert(picked@[b] == k);
                        assert(picked@[a] == picked_old[a]);
                    } else {
                        assert(picked@[b] == picked_old[b - 1]);
                        if a < p {
                            assert(picked@[a] == picked_old[a]);
                        } else if a == p {
                            assert(picked@[a] == k);
                            assert(!(spec_format_height(
                                metadata.formats@[picked_old[p] as int],
                            ) >= h));
                        } else {
                            assert(picked@[a] == picked_old[a - 1]);
                        }
                    }
                }
            }
        }
        k = k + 1;
    }
    // At most five video rows.
    let mut taken: usize = 0;
    let mut idx: usize = 0;
    while idx < picked.len() && taken < 5
        invariant
            n == metadata.formats@.len(),
            forall|a: int| 0 <= a < picked@.len() ==> #[trigger] picked@[a] < n,
            taken <= 5,
            idx <= picked@.len(),
            rows@.len() == 1 + taken,
            rows@[0].format_id@ == "best"@,
        decreases picked@.len() - idx,
    {
        let f = &metadata.formats[picked[idx]];
        let resolution = match &f.resolution {
            Option::Some(res) => res.clone(),
            Option::None => "Unknown".to_owned(),
        };
        let file_size = match f.filesize {
            Option::Some(s) => format_size_mb(s),
            Option::None => "Unknown".to_owned(),
        };
        rows.push(
            crate::app::FormatOption {
                label: resolution.clone(),
                resolution,
                file_size,
                format_id: f.format_id.clone(),
            },
        );
        taken = taken + 1;
        idx = idx + 1;
    }
    rows.push(
        crate::app::FormatOption {
            label: "Audio Only (MP3)".to_owned(),
            resolution: "N/A".to_owned(),
            file_size: "~5-10 MB".to_owned(),
            format_id: "audio".to_owned(),
        },
    );
    rows
}

/// The message blaming an exit code, e.g. "yt-dlp exited with code 1".
pub open spec fn spec_exit_message(code: Option<i32>) -> Seq<char> {
    let shown: int = match code {
        Option::Some(c) => c as int,
        Option::None => -1,
    };
    if shown < 0 {
        "yt-dlp exited with code "@ + "-"@ + dec_digits((-shown) as nat)
    } else {
        "yt-dlp exited with code "@ + dec_digits(shown as nat)
    }
}

/// The verdict on the external tool's exit: success is success, and
/// any other exit is a failure naming the exit code (or -1 when a
/// signal ended the process).
pub fn interpret_exit(success: bool, code: Option<i32>) -> (r: Result<(), YtdlError>)
    ensures
        r is Ok <==> success,
        !success ==> (r matches Err(e) && e matches YtdlError::YtdlpFailed(m) && m@
            == spec_exit_message(code)),
{
    if success {
        Ok(())
    } else {
        let shown: i64 = match code {
            Option::Some(c) => c as i64,
            Option::None => -1,
        };
        let mut m = "yt-dlp exited with code ".to_owned();
        if shown < 0 {
            m.append("-");
            push_decimal(&mut m, (-shown) as u64);
        } else {
            push_decimal(&mut m, shown as u64);
        }
        Err(YtdlError::YtdlpFailed(m))
    }
}

/// One directory entry, as the filesystem scan outside the crate
/// reports it: a name, a modification stamp, and whether it is a
/// directory.
#[derive(Debug)]
pub struct FileStamp {
    pub name: String,
    /// Milliseconds since the Unix epoch at which it was modified.
    pub modified_ms: u64,
    pub is_dir: bool,
}

/// Whether a file name marks an in-progress download: it ends in
/// ".part" without being only that suffix.
pub open spec fn is_partial_name(name: Seq<char>) -> bool {
    name.len() > 5 && spec_match_at(name, name.len() - 5, ".part"@)
}

/// Whether a directory entry can be the produced artifact: a file,
/// not an in-progress download.
pub open spec fn is_artifact_candidate(e: FileStamp) -> bool {
    !e.is_dir && !is_partial_name(e.name@)
}

/// Whether a file name marks an in-progress download.
pub fn name_is_partial(name: &str) -> (r: bool)
    ensures
        r == is_partial_name(name@),
{
    let n = name.unicode_len();
    if n > 5 {
        crate::strutil::match_at(name, n - 5, ".part")
    } else {
        false
    }
}

/// Picks the artifact the download presumably produced: the most
/// recently modified entry that is a file and not partial, earliest
/// such entry on equal stamps.
///
/// This is a heuristic, not knowledge: when several jobs share one
/// output directory and finish close together, the newest file may
/// belong to another job. The contract says only which entry is
/// chosen, not that it is the right one.
pub fn select_newest_artifact(entries: &Vec<FileStamp>) -> (r: Option<usize>)
    ensures
        match r {
            Option::Some(i) => {
                &&& i < entries@.len()
                &&& is_artifact_candidate(entries@[i as int])
                &&& forall|j: int|
                    0 <= j < entries@.len() && is_artifact_candidate(#[trigger] entries@[j])
                        ==> entries@[j].modified_ms <= entries@[i as int].modified_ms
                &&& forall|j: int|
                    0 <= j < i && is_artifact_candidate(#[trigger] entries@[j])
                        ==> entries@[j].modified_ms < entries@[i as int].modified_ms
            },
            Option::None => forall|j: int|
                0 <= j < entries@.len() ==> !is_artifact_candidate(#[trigger] entries@[j]),
        },
{
    let n = entries.len();
    let mut best: Option<usize> = None;
    let mut k: usize = 0;
    while k < n
        invariant
            n == entries@.len(),
            k <= n,
            match best {
                Option::Some(i) => {
                    &&& i < k
                    &&& is_artifact_candidate(entries@[i as int])
                    &&& forall|j: int|
                        0 <= j < k && is_artifact_candidate(#[trigger] entries@[j])
                            ==> entries@[j].modified_ms <= entries@[i as int].modified_ms
                    &&& forall|j: int|
                        0 <= j < i && is_artifact_candidate(#[trigger] entries@[j])
                            ==> entries@[j].modified_ms < entries@[i as int].modified_ms
                },
                Option::None => forall|j: int|
                    0 <= j < k ==> !is_artifact_candidate(#[trigger] entries@[j]),
            },
        decreases n - k,
    {
        let e = &entries[k];
        if !e.is_dir && !name_is_partial(e.name.as_str()) {
            match best {
                Option::Some(i) => {
                    if entries[k].modified_ms > entries[i].modified_ms {
                        best = Some(k);
                    }
                },
                Option::None => {
                    best = Some(k);
                },
            }
        }
        k = k + 1;
    }
    best
}

/// The first in-progress file among the entries, if any: the passive
/// scan behind resume detection.
pub fn find_partial_download(entries: &Vec<FileStamp>) -> (r: Option<usize>)
    ensures
        match r {
            Option::Some(i) => i < entries@.len() && !entries@[i as int].is_dir && is_partial_name(
                entries@[i as int].name@,
            ) && forall|j: int|
                0 <= j < i ==> !(!entries@[j].is_dir && is_partial_name(
                    #[trigger] entries@[j].name@,
                )),
            Option::None => forall|j: int|
                0 <= j < entries@.len() ==> !(!entries@[j].is_dir && is_partial_name(
                    #[trigger] entries@[j].name@,
                )),
        },
{
    let n = entries.len();
    let mut k: usize = 0;
    while k < n
        invariant
            n == entries@.len(),
            k <= n,
            forall|j: int|
                0 <= j < k ==> !(!entries@[j].is_dir && is_partial_name(
                    #[trigger] entries@[j].name@,
                )),
        decreases n - k,
    {
        let e = &entries[k];
        if !e.is_dir && name_is_partial(e.name.as_str()) {
            return Some(k);
        }
        k = k + 1;
    }
    None
}

} // verus!
